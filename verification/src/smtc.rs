//! The Windows system-media-transport-controls path.
//!
//! The native binding requests the system-wide session manager, obtains the
//! current session, and fetches media properties, playback info, and timeline
//! properties — three independent fetches, each of which may fail without
//! affecting the others. The binding records what each fetch returned as plain
//! values in the model types here; this module then normalizes that record
//! into a [`MediaSnapshot`]. Times come in as 100-nanosecond ticks and convert
//! to milliseconds by integer division by 10 000; negative or unreadable ticks
//! mean "no timing data", never zero.

use vstd::prelude::*;

use crate::dispatch::{decide_control, dispatch_decision, ControlIntent, DispatchDecision,
    SkipCapabilities};
use crate::snapshot::{idle_snapshot, normalized_snapshot, MediaSnapshot};

verus! {

/// The playback status a session reports.
#[derive(Debug, Clone, Copy, PartialEq, Eq, Structural)]
pub enum SmtcPlaybackStatus {
    Closed,
    Opened,
    Changing,
    Stopped,
    Playing,
    Paused,
}

/// The media properties fetch: title and artist, each absent when its own
/// read failed.
#[derive(Debug, Clone, PartialEq, Eq)]
pub struct SmtcMediaProperties {
    pub title: Option<String>,
    pub artist: Option<String>,
}

/// The skip-control flags nested in the playback info; each is absent when
/// its read failed.
#[derive(Debug, Clone, Copy, PartialEq, Eq, Structural)]
pub struct SmtcPlaybackControls {
    pub is_next_enabled: Option<bool>,
    pub is_previous_enabled: Option<bool>,
}

/// The playback info fetch: status and control flags, each absent when its
/// own read failed.
#[derive(Debug, Clone, Copy, PartialEq, Eq, Structural)]
pub struct SmtcPlaybackInfo {
    pub status: Option<SmtcPlaybackStatus>,
    pub controls: Option<SmtcPlaybackControls>,
}

/// The timeline fetch: position and end time in 100-nanosecond ticks, each
/// absent when its own read failed.
#[derive(Debug, Clone, Copy, PartialEq, Eq, Structural)]
pub struct SmtcTimeline {
    pub position_ticks: Option<i64>,
    pub end_ticks: Option<i64>,
}

/// What the native binding read from the current session: the outcome of each
/// of the three independent fetches, `None` where the fetch as a whole failed.
#[derive(Debug, Clone, PartialEq, Eq)]
pub struct SmtcSession {
    pub media_properties: Option<SmtcMediaProperties>,
    pub playback_info: Option<SmtcPlaybackInfo>,
    pub timeline: Option<SmtcTimeline>,
}

/// The session manager's answer: the current session, or none when no player
/// owns the system media session (or the manager request itself failed).
#[derive(Debug, Clone, PartialEq, Eq)]
pub struct SmtcManager {
    pub current_session: Option<SmtcSession>,
}

/// Why a session could not be obtained.
#[derive(Debug, Clone, Copy, PartialEq, Eq, Structural)]
pub enum SmtcError {
    NoSession,
}

/// A tick count converted to milliseconds: absent when the ticks are absent
/// or negative, the ticks divided by 10 000 (truncating) otherwise.
pub open spec fn ticks_to_ms_spec(ticks: Option<i64>) -> Option<u64> {
    match ticks {
        Some(t) => if t >= 0 {
            Some((t / 10000) as u64)
        } else {
            None
        },
        None => None,
    }
}

/// The title carried by the media properties fetch, absent when that fetch
/// failed.
pub open spec fn smtc_title(props: Option<SmtcMediaProperties>) -> Option<String> {
    match props {
        Some(p) => p.title,
        None => None,
    }
}

/// The artist carried by the media properties fetch, absent when that fetch
/// failed.
pub open spec fn smtc_artist(props: Option<SmtcMediaProperties>) -> Option<String> {
    match props {
        Some(p) => p.artist,
        None => None,
    }
}

/// Playing exactly when the playback info and its status were both read and
/// the status is `Playing`.
pub open spec fn smtc_is_playing(info: Option<SmtcPlaybackInfo>) -> bool {
    match info {
        Some(i) => i.status == Some(SmtcPlaybackStatus::Playing),
        None => false,
    }
}

/// The position in milliseconds, absent when the timeline fetch failed or the
/// ticks are absent or negative.
pub open spec fn smtc_position_ms(timeline: Option<SmtcTimeline>) -> Option<u64> {
    match timeline {
        Some(t) => ticks_to_ms_spec(t.position_ticks),
        None => None,
    }
}

/// The end time in milliseconds, absent when the timeline fetch failed or the
/// ticks are absent or negative.
pub open spec fn smtc_end_ms(timeline: Option<SmtcTimeline>) -> Option<u64> {
    match timeline {
        Some(t) => ticks_to_ms_spec(t.end_ticks),
        None => None,
    }
}

/// The normalized snapshot of one session record. This platform reports no
/// album art, so that field is always absent.
pub open spec fn windows_snapshot(s: SmtcSession) -> MediaSnapshot {
    normalized_snapshot(
        smtc_title(s.media_properties),
        smtc_artist(s.media_properties),
        smtc_is_playing(s.playback_info),
        None,
        smtc_position_ms(s.timeline),
        smtc_end_ms(s.timeline),
    )
}

/// The snapshot the whole Windows path yields: idle when no session could be
/// obtained, the session's normalized snapshot otherwise.
pub open spec fn smtc_outcome(manager: SmtcManager) -> MediaSnapshot {
    match manager.current_session {
        Some(s) => windows_snapshot(s),
        None => idle_snapshot(),
    }
}

/// Resolves the current session from the manager's answer: the session when
/// one is present, an error otherwise. Resolution happens from scratch on
/// every operation; no handle is cached across calls.
pub fn get_current_smtc_session(manager: SmtcManager) -> (r: Result<SmtcSession, SmtcError>)
    ensures
        manager.current_session matches Some(s) ==> r == Ok::<SmtcSession, SmtcError>(s),
        manager.current_session is None ==> r == Err::<SmtcSession, SmtcError>(
            SmtcError::NoSession,
        ),
{
    match manager.current_session {
        Some(s) => Ok(s),
        None => Err(SmtcError::NoSession),
    }
}

/// Converts a fetched tick count to milliseconds: 100-nanosecond ticks divided
/// by 10 000 with truncation; absent or negative ticks yield no timing data.
pub fn ticks_to_ms(ticks: Option<i64>) -> (r: Option<u64>)
    ensures
        r == ticks_to_ms_spec(ticks),
{
    match ticks {
        Some(t) => {
            if t >= 0 {
                Some((t as u64) / 10000)
            } else {
                None
            }
        },
        None => None,
    }
}

/// Normalizes what the native binding read from the session manager into one
/// snapshot: a failed fetch leaves only its own fields absent, and the
/// idle-collapse rule is applied once at the end.
pub fn get_windows_smtc_media_info(manager: SmtcManager) -> (r: MediaSnapshot)
    ensures
        r == smtc_outcome(manager),
{
    match get_current_smtc_session(manager) {
        Ok(session) => {
            let (title, artist) = match session.media_properties {
                Some(props) => (props.title, props.artist),
                None => (None, None),
            };
            let is_playing = match session.playback_info {
                Some(info) => info.status == Some(SmtcPlaybackStatus::Playing),
                None => false,
            };
            let (current_time_ms, total_time_ms) = match session.timeline {
                Some(t) => (ticks_to_ms(t.position_ticks), ticks_to_ms(t.end_ticks)),
                None => (None, None),
            };
            MediaSnapshot::assemble(title, artist, is_playing, None, current_time_ms, total_time_ms)
        },
        Err(_) => MediaSnapshot::idle(),
    }
}

/// The skip capability flags a session reports, read through the control
/// flags nested in its playback info. A flag whose own read failed — or whose
/// whole playback-info or controls fetch failed — is unknown, not false.
pub open spec fn smtc_skip_capabilities(s: SmtcSession) -> SkipCapabilities {
    match s.playback_info {
        Some(info) => match info.controls {
            Some(c) => SkipCapabilities {
                can_skip_next: c.is_next_enabled,
                can_skip_previous: c.is_previous_enabled,
            },
            None => SkipCapabilities { can_skip_next: None, can_skip_previous: None },
        },
        None => SkipCapabilities { can_skip_next: None, can_skip_previous: None },
    }
}

/// Reads the skip capability flags out of a session record.
pub fn session_skip_capabilities(session: &SmtcSession) -> (r: SkipCapabilities)
    ensures
        r == smtc_skip_capabilities(*session),
{
    match &session.playback_info {
        Some(info) => match info.controls {
            Some(c) => SkipCapabilities {
                can_skip_next: c.is_next_enabled,
                can_skip_previous: c.is_previous_enabled,
            },
            None => SkipCapabilities { can_skip_next: None, can_skip_previous: None },
        },
        None => SkipCapabilities { can_skip_next: None, can_skip_previous: None },
    }
}

/// The dispatch decision for one intent on the Windows path: the session is
/// resolved from scratch from the manager's fresh answer, its capability
/// flags are read, and the generic gate decides. The native binding issues
/// the platform call only on an `Invoke` decision.
pub fn decide_smtc_control(intent: ControlIntent, manager: SmtcManager) -> (r: DispatchDecision)
    ensures
        r == dispatch_decision(
            intent,
            match manager.current_session {
                Some(s) => Some(smtc_skip_capabilities(s)),
                None => None,
            },
        ),
{
    match get_current_smtc_session(manager) {
        Ok(session) => decide_control(intent, Some(session_skip_capabilities(&session))),
        Err(_) => decide_control(intent, None),
    }
}

/// Law: negative or absent timeline ticks never produce a time; each time
/// field of the normalized snapshot is then absent, never negative or zeroed.
pub proof fn lemma_bad_ticks_yield_no_time(s: SmtcSession)
    ensures
        (s.timeline matches Some(t) ==> match t.position_ticks {
            Some(p) => p < 0,
            None => true,
        }) ==> windows_snapshot(s).current_time_ms is None,
        (s.timeline matches Some(t) ==> match t.end_ticks {
            Some(e) => e < 0,
            None => true,
        }) ==> windows_snapshot(s).total_time_ms is None,
{
}

} // verus!
