//! Control-intent dispatch decisions.
//!
//! A host hands in a generic control intent; the platform binding resolves the
//! current session from scratch and reads the relevant capability flags as
//! plain values. The decision made here is what the binding then acts on: skip
//! intents are gated on their capability flag (an explicitly false flag blocks
//! the native call; an unreadable flag does not), toggle-play-pause has no
//! gate, and with no session at all every intent is a logged no-op.

use vstd::prelude::*;

verus! {

/// A generic control intent, stateless and fire-and-forget.
#[derive(Debug, Clone, Copy, PartialEq, Eq, Structural)]
pub enum ControlIntent {
    TogglePlayPause,
    Next,
    Previous,
}

/// The skip capability flags read from the current session. `None` means the
/// flag could not be read; that is "capability unknown", not a failure.
#[derive(Debug, Clone, Copy, PartialEq, Eq, Structural)]
pub struct SkipCapabilities {
    pub can_skip_next: Option<bool>,
    pub can_skip_previous: Option<bool>,
}

/// What the platform binding should do with an intent.
#[derive(Debug, Clone, Copy, PartialEq, Eq, Structural)]
pub enum DispatchDecision {
    /// Issue the native call.
    Invoke,
    /// The capability flag was read and is false: do not issue the native
    /// call, log a "not enabled" notice.
    SkipNotEnabled,
    /// No session or player could be resolved: log and return, no effect.
    NoSession,
}

/// A skip is allowed unless its capability flag was read and is false.
/// An unreadable flag does not block the attempt.
pub open spec fn capability_allows(flag: Option<bool>) -> bool {
    flag != Some(false)
}

/// The dispatch decision for an intent, given the capability flags of the
/// resolved session, or `None` when no session could be resolved.
pub open spec fn dispatch_decision(
    intent: ControlIntent,
    session: Option<SkipCapabilities>,
) -> DispatchDecision {
    match session {
        None => DispatchDecision::NoSession,
        Some(caps) => match intent {
            ControlIntent::TogglePlayPause => DispatchDecision::Invoke,
            ControlIntent::Next => if capability_allows(caps.can_skip_next) {
                DispatchDecision::Invoke
            } else {
                DispatchDecision::SkipNotEnabled
            },
            ControlIntent::Previous => if capability_allows(caps.can_skip_previous) {
                DispatchDecision::Invoke
            } else {
                DispatchDecision::SkipNotEnabled
            },
        },
    }
}

/// Decides whether an intent may be issued as a native call. The platform
/// binding resolves the current session, reads its skip capability flags, and
/// acts exactly on the returned decision.
pub fn decide_control(intent: ControlIntent, session: Option<SkipCapabilities>) -> (r:
    DispatchDecision)
    ensures
        r == dispatch_decision(intent, session),
{
    match session {
        None => DispatchDecision::NoSession,
        Some(caps) => match intent {
            ControlIntent::TogglePlayPause => DispatchDecision::Invoke,
            ControlIntent::Next => {
                if caps.can_skip_next != Some(false) {
                    DispatchDecision::Invoke
                } else {
                    DispatchDecision::SkipNotEnabled
                }
            },
            ControlIntent::Previous => {
                if caps.can_skip_previous != Some(false) {
                    DispatchDecision::Invoke
                } else {
                    DispatchDecision::SkipNotEnabled
                }
            },
        },
    }
}

/// Law: a skip intent whose capability flag reads false is never invoked; one
/// whose flag reads true, or cannot be read at all, is always invoked.
pub proof fn lemma_skip_capability_gate(caps: SkipCapabilities)
    ensures
        caps.can_skip_next == Some(false) ==> dispatch_decision(
            ControlIntent::Next,
            Some(caps),
        ) == DispatchDecision::SkipNotEnabled,
        caps.can_skip_next != Some(false) ==> dispatch_decision(
            ControlIntent::Next,
            Some(caps),
        ) == DispatchDecision::Invoke,
        caps.can_skip_previous == Some(false) ==> dispatch_decision(
            ControlIntent::Previous,
            Some(caps),
        ) == DispatchDecision::SkipNotEnabled,
        caps.can_skip_previous != Some(false) ==> dispatch_decision(
            ControlIntent::Previous,
            Some(caps),
        ) == DispatchDecision::Invoke,
{
}

/// Law: toggle-play-pause has no capability gate; with any resolved session it
/// is always invoked.
pub proof fn lemma_toggle_has_no_gate(caps: SkipCapabilities)
    ensures
        dispatch_decision(ControlIntent::TogglePlayPause, Some(caps))
            == DispatchDecision::Invoke,
{
}

/// Law: with no resolvable session, every intent — however often repeated —
/// resolves to the same no-op decision; no native call is ever issued.
pub proof fn lemma_no_session_is_noop(intent: ControlIntent)
    ensures
        dispatch_decision(intent, None) == DispatchDecision::NoSession,
        dispatch_decision(intent, None) != DispatchDecision::Invoke,
{
}

} // verus!
