use media_session::provider::{fallback_media_info, get_current_os_media_info, RawSessionData};
use media_session::smtc::SmtcManager;
use media_session::snapshot::MediaSnapshot;

#[test]
fn idle_collapse_discards_partial_fields() {
    // No title, no artist, not playing: timing and art collected earlier are
    // discarded and the canonical idle value comes out.
    let snap = MediaSnapshot::assemble(
        None,
        None,
        false,
        Some("https://example.com/art.png".to_string()),
        Some(1234),
        Some(240000),
    );
    assert_eq!(snap, MediaSnapshot::idle());
    assert_eq!(snap.title, None);
    assert_eq!(snap.artist, None);
    assert!(!snap.is_playing);
    assert_eq!(snap.album_art_url, None);
    assert_eq!(snap.current_time_ms, None);
    assert_eq!(snap.total_time_ms, None);
}

#[test]
fn title_alone_prevents_collapse() {
    let snap = MediaSnapshot::assemble(
        Some("Song A".to_string()),
        None,
        false,
        None,
        Some(1234),
        None,
    );
    assert_eq!(snap.title, Some("Song A".to_string()));
    assert_eq!(snap.artist, None);
    assert!(!snap.is_playing);
    assert_eq!(snap.current_time_ms, Some(1234));
    assert_eq!(snap.total_time_ms, None);
}

#[test]
fn artist_alone_prevents_collapse() {
    let snap = MediaSnapshot::assemble(None, Some("Artist B".to_string()), false, None, None, None);
    assert_eq!(snap.artist, Some("Artist B".to_string()));
    assert_ne!(snap, MediaSnapshot::idle());
}

#[test]
fn playing_alone_prevents_collapse() {
    // Playing with no metadata keeps whatever timing was collected.
    let snap = MediaSnapshot::assemble(None, None, true, None, Some(500), Some(1000));
    assert!(snap.is_playing);
    assert_eq!(snap.current_time_ms, Some(500));
    assert_eq!(snap.total_time_ms, Some(1000));
}

#[test]
fn no_player_emits_idle_every_tick() {
    // With no player running the poll tick yields the all-absent record,
    // tick after tick.
    for _ in 0..3 {
        let snap = get_current_os_media_info(RawSessionData::Windows(SmtcManager {
            current_session: None,
        }));
        assert_eq!(snap.title, None);
        assert_eq!(snap.artist, None);
        assert!(!snap.is_playing);
        assert_eq!(snap.album_art_url, None);
        assert_eq!(snap.current_time_ms, None);
        assert_eq!(snap.total_time_ms, None);
    }
}

#[test]
fn fallback_is_deterministic_and_complete() {
    let snap = fallback_media_info(0);
    assert_eq!(snap.title, Some("Other OS Track 0".to_string()));
    assert_eq!(snap.artist, Some("Generic Artist".to_string()));
    assert!(snap.is_playing);
    assert_eq!(snap.album_art_url, Some("https://via.placeholder.com/40".to_string()));
    assert_eq!(snap.current_time_ms, Some(0));
    assert_eq!(snap.total_time_ms, Some(240000));

    let snap = fallback_media_info(253);
    assert_eq!(snap.title, Some("Other OS Track 1".to_string()));
    assert!(!snap.is_playing); // 253 % 20 == 13, in the paused half
    assert_eq!(snap.current_time_ms, Some(13000)); // 253 % 240 == 13 seconds in

    let again = fallback_media_info(253);
    assert_eq!(snap, again);
}

#[test]
fn fallback_through_provider_dispatch() {
    let snap = get_current_os_media_info(RawSessionData::Fallback { now_secs: 42 });
    assert_eq!(snap.title, Some("Other OS Track 0".to_string()));
    assert_eq!(snap.current_time_ms, Some(42000));
}
