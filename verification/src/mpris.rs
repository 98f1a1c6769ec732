//! The Linux message-bus (MPRIS) path.
//!
//! The native binding connects to the session bus, lists the registered
//! service names, and selects the first one carrying the media-player name
//! prefix. On that service it queries three properties — a heterogeneous
//! metadata map, a playback-status text, and a signed 64-bit position in
//! microseconds — and records what each query returned as plain values in the
//! model types here. This module makes the service selection, extracts the
//! typed fields from the metadata map, converts microseconds to milliseconds
//! by integer division by 1000, and normalizes the result into a
//! [`MediaSnapshot`].

use vstd::prelude::*;

use crate::snapshot::{idle_snapshot, normalized_snapshot, MediaSnapshot};

verus! {

/// A property value as read off the message bus: only the shapes the
/// extraction logic distinguishes; everything else is `Other`.
#[derive(Debug, PartialEq, Eq)]
pub enum MprisValue {
    Str(String),
    I64(i64),
    U64(u64),
    Arr(Vec<MprisValue>),
    Dict(Vec<MprisEntry>),
    Other,
}

/// One key/value pair of a metadata map.
#[derive(Debug, PartialEq, Eq)]
pub struct MprisEntry {
    pub key: String,
    pub value: MprisValue,
}

/// What the native binding read for one fetch: the listed service names
/// (`None` when connecting or listing failed), and the three property values
/// of the selected player (`None` where that property query failed). The
/// property fields are only meaningful when a player service was listed.
#[derive(Debug, PartialEq, Eq)]
pub struct MprisRaw {
    pub services: Option<Vec<String>>,
    pub metadata: Option<MprisValue>,
    pub playback_status: Option<MprisValue>,
    pub position: Option<MprisValue>,
}

/// `s` begins with `p`.
pub open spec fn has_prefix(s: Seq<char>, p: Seq<char>) -> bool {
    s.len() >= p.len() && s.subrange(0, p.len() as int) == p
}

/// The service-name prefix every MPRIS media player registers under.
pub open spec fn player_name_prefix() -> Seq<char> {
    "org.mpris.MediaPlayer2."@
}

/// A bus name that belongs to a media player.
pub open spec fn is_player_service(name: Seq<char>) -> bool {
    has_prefix(name, player_name_prefix())
}

/// Some listed name belongs to a media player.
pub open spec fn has_player_service(names: Seq<String>) -> bool {
    exists|i: int| 0 <= i < names.len() && is_player_service(names[i]@)
}

/// The value stored under `key`, scanning the entries from index `i` on.
pub open spec fn lookup_from(entries: Seq<MprisEntry>, i: int, key: Seq<char>) -> Option<
    MprisValue,
>
    decreases entries.len() - i,
{
    if i < 0 || i >= entries.len() {
        None
    } else if entries[i].key@ == key {
        Some(entries[i].value)
    } else {
        lookup_from(entries, i + 1, key)
    }
}

/// The value stored under `key` in a metadata map: the first entry with that
/// key, absent when no entry has it.
pub open spec fn dict_lookup(entries: Seq<MprisEntry>, key: Seq<char>) -> Option<MprisValue> {
    lookup_from(entries, 0, key)
}

/// The title: the string value under `xesam:title`, absent when the metadata
/// is not a decodable map, the key is missing, or its value is not a string.
pub open spec fn mpris_title(meta: MprisValue) -> Option<String> {
    match meta {
        MprisValue::Dict(entries) => match dict_lookup(entries@, "xesam:title"@) {
            Some(MprisValue::Str(t)) => Some(t),
            _ => None,
        },
        _ => None,
    }
}

/// The artist: the first element of the array under `xesam:artist`, ignoring
/// any further artists; absent when the key is missing, its value is not an
/// array, the array is empty, or its first element is not a string.
pub open spec fn mpris_artist(meta: MprisValue) -> Option<String> {
    match meta {
        MprisValue::Dict(entries) => match dict_lookup(entries@, "xesam:artist"@) {
            Some(MprisValue::Arr(items)) => if items@.len() > 0 {
                match items@[0] {
                    MprisValue::Str(a) => Some(a),
                    _ => None,
                }
            } else {
                None
            },
            _ => None,
        },
        _ => None,
    }
}

/// The album-art URL: the string value under `mpris:artUrl`.
pub open spec fn mpris_art_url(meta: MprisValue) -> Option<String> {
    match meta {
        MprisValue::Dict(entries) => match dict_lookup(entries@, "mpris:artUrl"@) {
            Some(MprisValue::Str(u)) => Some(u),
            _ => None,
        },
        _ => None,
    }
}

/// The track length in milliseconds: the integer under `mpris:length`, given
/// in microseconds and divided by 1000 with truncation. A negative signed
/// length means no timing data; an unsigned length converts as is.
pub open spec fn mpris_length_ms(meta: MprisValue) -> Option<u64> {
    match meta {
        MprisValue::Dict(entries) => match dict_lookup(entries@, "mpris:length"@) {
            Some(MprisValue::I64(len)) => if len >= 0 {
                Some((len / 1000) as u64)
            } else {
                None
            },
            Some(MprisValue::U64(len)) => Some(len / 1000),
            _ => None,
        },
        _ => None,
    }
}

/// The playback position in milliseconds. The position property is a signed
/// count of microseconds, divided by 1000 with truncation; a negative
/// position means no timing data. A failed or otherwise-typed read counts as
/// position zero, and an unsigned value beyond the signed 64-bit range reads
/// as negative.
pub open spec fn mpris_position_ms(position: Option<MprisValue>) -> Option<u64> {
    match position {
        Some(MprisValue::I64(p)) => if p >= 0 {
            Some((p / 1000) as u64)
        } else {
            None
        },
        Some(MprisValue::U64(p)) => if p <= i64::MAX as u64 {
            Some(p / 1000)
        } else {
            None
        },
        _ => Some(0),
    }
}

/// Playing exactly when the status text is the literal `Playing`; any other
/// value, of any type, is not-playing.
pub open spec fn mpris_is_playing(status: MprisValue) -> bool {
    status matches MprisValue::Str(s) && s@ == "Playing"@
}

/// The normalized snapshot built from the three property values of the
/// selected player.
pub open spec fn mpris_snapshot(
    metadata: MprisValue,
    status: MprisValue,
    position: Option<MprisValue>,
) -> MediaSnapshot {
    normalized_snapshot(
        mpris_title(metadata),
        mpris_artist(metadata),
        mpris_is_playing(status),
        mpris_art_url(metadata),
        mpris_position_ms(position),
        mpris_length_ms(metadata),
    )
}

/// The snapshot the whole Linux path yields: idle when the bus was
/// unreachable, no player service is registered, or the metadata or status
/// query failed; the normalized snapshot of the read properties otherwise.
pub open spec fn mpris_outcome(raw: MprisRaw) -> MediaSnapshot {
    match raw.services {
        None => idle_snapshot(),
        Some(names) => if !has_player_service(names@) {
            idle_snapshot()
        } else {
            match (raw.metadata, raw.playback_status) {
                (Some(m), Some(s)) => mpris_snapshot(m, s, raw.position),
                _ => idle_snapshot(),
            }
        },
    }
}

/// Two string slices hold the same characters.
fn str_eq(a: &str, b: &str) -> (r: bool)
    ensures
        r == (a@ == b@),
{
    let a_len = a.unicode_len();
    let b_len = b.unicode_len();
    if a_len != b_len {
        return false;
    }
    let mut i: usize = 0;
    while i < a_len
        invariant
            i <= a_len,
            a_len == a@.len(),
            b_len == b@.len(),
            a_len == b_len,
            forall|j: int| 0 <= j < i ==> a@[j] == b@[j],
        decreases a_len - i,
    {
        if a.get_char(i) != b.get_char(i) {
            assert(a@[i as int] != b@[i as int]);
            return false;
        }
        i += 1;
    }
    proof {
        assert(a@ =~= b@);
    }
    true
}

/// `s` begins with the characters of `prefix`.
fn str_starts_with(s: &str, prefix: &str) -> (r: bool)
    ensures
        r == has_prefix(s@, prefix@),
{
    let p_len = prefix.unicode_len();
    if s.unicode_len() < p_len {
        return false;
    }
    let mut i: usize = 0;
    while i < p_len
        invariant
            i <= p_len,
            p_len == prefix@.len(),
            p_len <= s@.len(),
            forall|j: int| 0 <= j < i ==> s@[j] == prefix@[j],
        decreases p_len - i,
    {
        if s.get_char(i) != prefix.get_char(i) {
            assert(!has_prefix(s@, prefix@)) by {
                if s@.subrange(0, prefix@.len() as int) == prefix@ {
                    assert(s@.subrange(0, prefix@.len() as int)[i as int] == s@[i as int]);
                }
            }
            return false;
        }
        i += 1;
    }
    proof {
        assert(s@.subrange(0, prefix@.len() as int) =~= prefix@);
    }
    true
}

/// Selects the media player to talk to: the first listed name carrying the
/// player prefix, in enumeration order, with no preference among several
/// simultaneously registered players.
pub fn find_media_player_service(services: &Vec<String>) -> (r: Option<usize>)
    ensures
        match r {
            Some(i) => i < services@.len() && is_player_service(services@[i as int]@) && forall|
                j: int,
            | 0 <= j < i ==> !is_player_service(services@[j]@),
            None => !has_player_service(services@),
        },
{
    let mut i: usize = 0;
    while i < services.len()
        invariant
            i <= services@.len(),
            forall|j: int| 0 <= j < i ==> !is_player_service(services@[j]@),
        decreases services@.len() - i,
    {
        if str_starts_with(services[i].as_str(), "org.mpris.MediaPlayer2.") {
            return Some(i);
        }
        i += 1;
    }
    None
}

/// Looks `key` up in the entries of a metadata map.
fn dict_get<'a>(entries: &'a Vec<MprisEntry>, key: &str) -> (r: Option<&'a MprisValue>)
    ensures
        match r {
            Some(v) => dict_lookup(entries@, key@) == Some(*v),
            None => dict_lookup(entries@, key@) is None,
        },
{
    let mut i: usize = 0;
    while i < entries.len()
        invariant
            i <= entries@.len(),
            dict_lookup(entries@, key@) == lookup_from(entries@, i as int, key@),
        decreases entries@.len() - i,
    {
        let e = &entries[i];
        if str_eq(e.key.as_str(), key) {
            return Some(&e.value);
        }
        i += 1;
    }
    None
}

/// Extracts the title from the metadata value.
fn extract_title(meta: &MprisValue) -> (r: Option<String>)
    ensures
        r == mpris_title(*meta),
{
    match meta {
        MprisValue::Dict(entries) => match dict_get(entries, "xesam:title") {
            Some(MprisValue::Str(t)) => Some(t.clone()),
            _ => None,
        },
        _ => None,
    }
}

/// Extracts the artist from the metadata value: only the first element of the
/// artist array.
fn extract_artist(meta: &MprisValue) -> (r: Option<String>)
    ensures
        r == mpris_artist(*meta),
{
    match meta {
        MprisValue::Dict(entries) => match dict_get(entries, "xesam:artist") {
            Some(MprisValue::Arr(items)) => {
                if items.len() > 0 {
                    match &items[0] {
                        MprisValue::Str(a) => Some(a.clone()),
                        _ => None,
                    }
                } else {
                    None
                }
            },
            _ => None,
        },
        _ => None,
    }
}

/// Extracts the album-art URL from the metadata value.
fn extract_art_url(meta: &MprisValue) -> (r: Option<String>)
    ensures
        r == mpris_art_url(*meta),
{
    match meta {
        MprisValue::Dict(entries) => match dict_get(entries, "mpris:artUrl") {
            Some(MprisValue::Str(u)) => Some(u.clone()),
            _ => None,
        },
        _ => None,
    }
}

/// Extracts the track length in milliseconds from the metadata value.
fn extract_length_ms(meta: &MprisValue) -> (r: Option<u64>)
    ensures
        r == mpris_length_ms(*meta),
{
    match meta {
        MprisValue::Dict(entries) => match dict_get(entries, "mpris:length") {
            Some(MprisValue::I64(len)) => {
                if *len >= 0 {
                    Some((*len as u64) / 1000)
                } else {
                    None
                }
            },
            Some(MprisValue::U64(len)) => Some(*len / 1000),
            _ => None,
        },
        _ => None,
    }
}

/// Converts the position property to milliseconds.
fn position_to_ms(position: &Option<MprisValue>) -> (r: Option<u64>)
    ensures
        r == mpris_position_ms(*position),
{
    match position {
        Some(MprisValue::I64(p)) => {
            if *p >= 0 {
                Some((*p as u64) / 1000)
            } else {
                None
            }
        },
        Some(MprisValue::U64(p)) => {
            if *p <= i64::MAX as u64 {
                Some(*p / 1000)
            } else {
                None
            }
        },
        _ => Some(0),
    }
}

/// The status text means playing.
fn status_is_playing(status: &MprisValue) -> (r: bool)
    ensures
        r == mpris_is_playing(*status),
{
    match status {
        MprisValue::Str(s) => str_eq(s.as_str(), "Playing"),
        _ => false,
    }
}

/// Normalizes what the native binding read off the message bus into one
/// snapshot: idle when the bus, the player, or a required property was
/// unavailable, and otherwise the extracted fields with the idle-collapse
/// rule applied once at the end.
pub fn get_mpris_media_info_with_zbus(raw: MprisRaw) -> (r: MediaSnapshot)
    ensures
        r == mpris_outcome(raw),
{
    let MprisRaw { services, metadata, playback_status, position } = raw;
    match services {
        None => MediaSnapshot::idle(),
        Some(names) => {
            match find_media_player_service(&names) {
                None => MediaSnapshot::idle(),
                Some(_) => {
                    match (metadata, playback_status) {
                        (Some(meta), Some(status)) => {
                            let title = extract_title(&meta);
                            let artist = extract_artist(&meta);
                            let is_playing = status_is_playing(&status);
                            let album_art_url = extract_art_url(&meta);
                            let current_time_ms = position_to_ms(&position);
                            let total_time_ms = extract_length_ms(&meta);
                            MediaSnapshot::assemble(
                                title,
                                artist,
                                is_playing,
                                album_art_url,
                                current_time_ms,
                                total_time_ms,
                            )
                        },
                        _ => MediaSnapshot::idle(),
                    }
                },
            }
        },
    }
}

/// Law: artist extraction takes only the first element of a multi-artist
/// array; whatever further artists the array holds, the extracted artist is
/// the first one.
pub proof fn lemma_artist_takes_first_only(
    meta: MprisValue,
    items: Vec<MprisValue>,
    a: String,
)
    requires
        meta matches MprisValue::Dict(entries) && dict_lookup(entries@, "xesam:artist"@)
            == Some(MprisValue::Arr(items)),
        items@.len() > 0,
        items@[0] == MprisValue::Str(a),
    ensures
        mpris_artist(meta) == Some(a),
{
}

} // verus!
