//! The canonical snapshot record and the idle-collapse rule.
//!
//! Every platform binding reduces its raw session data to the same
//! [`MediaSnapshot`] shape. When nothing meaningful was read — no title, no
//! artist, and not playing — the whole snapshot collapses to the single
//! canonical idle value, so that downstream consumers see exactly one
//! representation of "nothing to show", whatever the cause.

use vstd::prelude::*;

verus! {

/// One normalized, point-in-time read of the current session's state.
#[derive(Debug, Clone, PartialEq, Eq)]
pub struct MediaSnapshot {
    pub title: Option<String>,
    pub artist: Option<String>,
    pub is_playing: bool,
    pub album_art_url: Option<String>,
    pub current_time_ms: Option<u64>,
    pub total_time_ms: Option<u64>,
}

/// The canonical idle value: every field absent, not playing.
pub open spec fn idle_snapshot() -> MediaSnapshot {
    MediaSnapshot {
        title: None,
        artist: None,
        is_playing: false,
        album_art_url: None,
        current_time_ms: None,
        total_time_ms: None,
    }
}

/// The idle-collapse condition: no title, no artist, and not playing.
pub open spec fn collapses_to_idle(
    title: Option<String>,
    artist: Option<String>,
    is_playing: bool,
) -> bool {
    title is None && artist is None && !is_playing
}

/// What normalization yields from the assembled fields: the canonical idle
/// value when the collapse condition holds (discarding any timing or art
/// fields that were collected), and otherwise the fields unchanged.
pub open spec fn normalized_snapshot(
    title: Option<String>,
    artist: Option<String>,
    is_playing: bool,
    album_art_url: Option<String>,
    current_time_ms: Option<u64>,
    total_time_ms: Option<u64>,
) -> MediaSnapshot {
    if collapses_to_idle(title, artist, is_playing) {
        idle_snapshot()
    } else {
        MediaSnapshot { title, artist, is_playing, album_art_url, current_time_ms, total_time_ms }
    }
}

impl MediaSnapshot {
    /// The canonical idle snapshot.
    pub fn idle() -> (r: MediaSnapshot)
        ensures
            r == idle_snapshot(),
    {
        MediaSnapshot {
            title: None,
            artist: None,
            is_playing: false,
            album_art_url: None,
            current_time_ms: None,
            total_time_ms: None,
        }
    }

    /// Assembles a snapshot from the fields a provider managed to fetch,
    /// applying the idle-collapse rule once at the end.
    pub fn assemble(
        title: Option<String>,
        artist: Option<String>,
        is_playing: bool,
        album_art_url: Option<String>,
        current_time_ms: Option<u64>,
        total_time_ms: Option<u64>,
    ) -> (r: MediaSnapshot)
        ensures
            r == normalized_snapshot(
                title,
                artist,
                is_playing,
                album_art_url,
                current_time_ms,
                total_time_ms,
            ),
    {
        if title.is_none() && artist.is_none() && !is_playing {
            MediaSnapshot::idle()
        } else {
            MediaSnapshot {
                title,
                artist,
                is_playing,
                album_art_url,
                current_time_ms,
                total_time_ms,
            }
        }
    }
}

/// Law: a raw result with no title, no artist, and not playing normalizes to
/// the canonical idle snapshot, with every field absent or false — whatever
/// timing or art fields had been collected.
pub proof fn lemma_idle_collapse(
    title: Option<String>,
    artist: Option<String>,
    is_playing: bool,
    album_art_url: Option<String>,
    current_time_ms: Option<u64>,
    total_time_ms: Option<u64>,
)
    requires
        collapses_to_idle(title, artist, is_playing),
    ensures
        normalized_snapshot(
            title,
            artist,
            is_playing,
            album_art_url,
            current_time_ms,
            total_time_ms,
        ) == idle_snapshot(),
{
}

/// Law: normalization always yields a canonical record — whenever a normalized
/// snapshot shows no title, no artist, and not playing, it is exactly the idle
/// value, so its timing and art fields are unset too. There is only one way a
/// snapshot says "nothing to show".
pub proof fn lemma_normalized_is_canonical(
    title: Option<String>,
    artist: Option<String>,
    is_playing: bool,
    album_art_url: Option<String>,
    current_time_ms: Option<u64>,
    total_time_ms: Option<u64>,
)
    ensures
        ({
            let r = normalized_snapshot(
                title,
                artist,
                is_playing,
                album_art_url,
                current_time_ms,
                total_time_ms,
            );
            collapses_to_idle(r.title, r.artist, r.is_playing) ==> r == idle_snapshot()
        }),
{
}

/// Law: with a title or an artist present, or while playing, the collapse does
/// not apply and every fetched field appears unchanged in the output.
pub proof fn lemma_no_collapse_preserves_fields(
    title: Option<String>,
    artist: Option<String>,
    is_playing: bool,
    album_art_url: Option<String>,
    current_time_ms: Option<u64>,
    total_time_ms: Option<u64>,
)
    requires
        !collapses_to_idle(title, artist, is_playing),
    ensures
        normalized_snapshot(
            title,
            artist,
            is_playing,
            album_art_url,
            current_time_ms,
            total_time_ms,
        ) == (MediaSnapshot {
            title,
            artist,
            is_playing,
            album_art_url,
            current_time_ms,
            total_time_ms,
        }),
{
}

} // verus!
