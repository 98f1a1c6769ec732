use media_session::provider::{get_current_os_media_info, RawSessionData};
use media_session::smtc::{
    get_current_smtc_session, get_windows_smtc_media_info, ticks_to_ms, SmtcError, SmtcManager,
    SmtcMediaProperties, SmtcPlaybackControls, SmtcPlaybackInfo, SmtcPlaybackStatus, SmtcSession,
    SmtcTimeline,
};
use media_session::snapshot::MediaSnapshot;

fn playing_session() -> SmtcSession {
    SmtcSession {
        media_properties: Some(SmtcMediaProperties {
            title: Some("Song A".to_string()),
            artist: Some("Artist B".to_string()),
        }),
        playback_info: Some(SmtcPlaybackInfo {
            status: Some(SmtcPlaybackStatus::Playing),
            controls: Some(SmtcPlaybackControls {
                is_next_enabled: Some(true),
                is_previous_enabled: Some(true),
            }),
        }),
        timeline: Some(SmtcTimeline {
            position_ticks: Some(50_000_000),
            end_ticks: Some(2_000_000_000),
        }),
    }
}

#[test]
fn session_resolution() {
    let r = get_current_smtc_session(SmtcManager { current_session: None });
    assert_eq!(r, Err(SmtcError::NoSession));

    let r = get_current_smtc_session(SmtcManager {
        current_session: Some(playing_session()),
    });
    assert_eq!(r, Ok(playing_session()));
}

#[test]
fn playing_session_normalizes_with_times() {
    // 50 000 000 ticks of 100 ns are 5 s; 2 000 000 000 are 200 s.
    let snap = get_windows_smtc_media_info(SmtcManager {
        current_session: Some(playing_session()),
    });
    assert_eq!(snap.title, Some("Song A".to_string()));
    assert_eq!(snap.artist, Some("Artist B".to_string()));
    assert!(snap.is_playing);
    assert_eq!(snap.album_art_url, None);
    assert_eq!(snap.current_time_ms, Some(5000));
    assert_eq!(snap.total_time_ms, Some(200000));
}

#[test]
fn tick_conversion_divides_by_ten_thousand_truncating() {
    assert_eq!(ticks_to_ms(Some(123_456)), Some(12));
    assert_eq!(ticks_to_ms(Some(9_999)), Some(0));
    assert_eq!(ticks_to_ms(Some(10_000)), Some(1));
    assert_eq!(ticks_to_ms(Some(0)), Some(0));
}

#[test]
fn negative_or_absent_ticks_map_to_absent() {
    assert_eq!(ticks_to_ms(Some(-1)), None);
    assert_eq!(ticks_to_ms(Some(i64::MIN)), None);
    assert_eq!(ticks_to_ms(None), None);

    let mut session = playing_session();
    session.timeline = Some(SmtcTimeline {
        position_ticks: Some(-5),
        end_ticks: None,
    });
    let snap = get_windows_smtc_media_info(SmtcManager {
        current_session: Some(session),
    });
    assert_eq!(snap.current_time_ms, None);
    assert_eq!(snap.total_time_ms, None);
    assert_eq!(snap.title, Some("Song A".to_string()));
}

#[test]
fn timeline_failure_keeps_title_and_artist() {
    let mut session = playing_session();
    session.timeline = None;
    let snap = get_windows_smtc_media_info(SmtcManager {
        current_session: Some(session),
    });
    assert_eq!(snap.title, Some("Song A".to_string()));
    assert_eq!(snap.artist, Some("Artist B".to_string()));
    assert_eq!(snap.current_time_ms, None);
    assert_eq!(snap.total_time_ms, None);
}

#[test]
fn status_failure_means_not_playing_but_keeps_metadata() {
    let mut session = playing_session();
    session.playback_info = Some(SmtcPlaybackInfo { status: None, controls: None });
    let snap = get_windows_smtc_media_info(SmtcManager {
        current_session: Some(session),
    });
    assert!(!snap.is_playing);
    assert_eq!(snap.title, Some("Song A".to_string()));
}

#[test]
fn paused_without_metadata_collapses_to_idle() {
    // Paused and nothing readable but the timeline: the idle collapse also
    // discards the timing that was collected.
    let session = SmtcSession {
        media_properties: Some(SmtcMediaProperties { title: None, artist: None }),
        playback_info: Some(SmtcPlaybackInfo {
            status: Some(SmtcPlaybackStatus::Paused),
            controls: None,
        }),
        timeline: Some(SmtcTimeline {
            position_ticks: Some(50_000_000),
            end_ticks: Some(2_000_000_000),
        }),
    };
    let snap = get_windows_smtc_media_info(SmtcManager {
        current_session: Some(session),
    });
    assert_eq!(snap, MediaSnapshot::idle());
}

#[test]
fn properties_failure_while_playing_is_not_idle() {
    let session = SmtcSession {
        media_properties: None,
        playback_info: Some(SmtcPlaybackInfo {
            status: Some(SmtcPlaybackStatus::Playing),
            controls: None,
        }),
        timeline: Some(SmtcTimeline { position_ticks: Some(10_000), end_ticks: None }),
    };
    let snap = get_windows_smtc_media_info(SmtcManager {
        current_session: Some(session),
    });
    assert_ne!(snap, MediaSnapshot::idle());
    assert_eq!(snap.title, None);
    assert!(snap.is_playing);
    assert_eq!(snap.current_time_ms, Some(1));
}

#[test]
fn windows_path_through_provider_dispatch() {
    let snap = get_current_os_media_info(RawSessionData::Windows(SmtcManager {
        current_session: Some(playing_session()),
    }));
    assert_eq!(snap.current_time_ms, Some(5000));
    assert!(snap.is_playing);
}
