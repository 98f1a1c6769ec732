//! Selecting and normalizing the active session provider.
//!
//! One provider variant is compiled in per platform: the Windows
//! session-manager binding, the Linux message-bus binding, or — on platforms
//! with no native session API — a deterministic simulated provider that
//! exists only so the rest of the pipeline has something to normalize and
//! emit. Each poll tick the binding fetches fresh raw data, hands it in as a
//! [`RawSessionData`], and receives the normalized snapshot to push to the
//! host's sink; a control invocation resolves its session the same way, from
//! scratch.

use vstd::prelude::*;

use crate::mpris::{get_mpris_media_info_with_zbus, mpris_outcome, MprisRaw};
use crate::smtc::{get_windows_smtc_media_info, smtc_outcome, SmtcManager};
use crate::snapshot::MediaSnapshot;

verus! {

/// What the active platform binding read on one tick: the Windows
/// session-manager answer, the Linux message-bus answer, or — for the
/// simulated provider — nothing but the current time in whole seconds.
#[derive(Debug, PartialEq, Eq)]
pub enum RawSessionData {
    Windows(SmtcManager),
    Linux(MprisRaw),
    Fallback { now_secs: u64 },
}

/// The simulated snapshot of the fallback provider: a placeholder track that
/// alternates each second, plays for ten seconds out of every twenty, and
/// loops over a four-minute timeline.
pub open spec fn fallback_shape(r: MediaSnapshot, now_secs: u64) -> bool {
    &&& r.title matches Some(t) && t@ == (if now_secs % 2 == 0 {
        "Other OS Track 0"@
    } else {
        "Other OS Track 1"@
    })
    &&& r.artist matches Some(a) && a@ == "Generic Artist"@
    &&& r.is_playing == (now_secs % 20 < 10)
    &&& r.album_art_url matches Some(u) && u@ == "https://via.placeholder.com/40"@
    &&& r.current_time_ms == Some(((now_secs % 240) * 1000) as u64)
    &&& r.total_time_ms == Some(240000u64)
}

/// The deterministic placeholder snapshot for platforms without a native
/// session API. Every field is present, so the idle collapse never applies.
pub fn fallback_media_info(now_secs: u64) -> (r: MediaSnapshot)
    ensures
        fallback_shape(r, now_secs),
{
    let title = if now_secs % 2 == 0 {
        "Other OS Track 0".to_owned()
    } else {
        "Other OS Track 1".to_owned()
    };
    let sim_ms = (now_secs % 240) * 1000;
    MediaSnapshot {
        title: Some(title),
        artist: Some("Generic Artist".to_owned()),
        is_playing: now_secs % 20 < 10,
        album_art_url: Some("https://via.placeholder.com/40".to_owned()),
        current_time_ms: Some(sim_ms),
        total_time_ms: Some(240000),
    }
}

/// Normalizes whatever the active provider read into the one snapshot a poll
/// tick emits. Lookup failures never surface: each platform path degrades to
/// the canonical idle snapshot, and the fallback always succeeds with its
/// synthetic value.
pub fn get_current_os_media_info(raw: RawSessionData) -> (r: MediaSnapshot)
    ensures
        raw matches RawSessionData::Windows(m) ==> r == smtc_outcome(m),
        raw matches RawSessionData::Linux(l) ==> r == mpris_outcome(l),
        raw matches RawSessionData::Fallback { now_secs } ==> fallback_shape(r, now_secs),
{
    match raw {
        RawSessionData::Windows(m) => get_windows_smtc_media_info(m),
        RawSessionData::Linux(l) => get_mpris_media_info_with_zbus(l),
        RawSessionData::Fallback { now_secs } => fallback_media_info(now_secs),
    }
}

} // verus!
