use portfolio_core::playback::{
    classify, reply, track_snapshot, ApiTrackAlbum, ApiTrackArtist, ApiTrackData, ApiTrackImage,
    ApiTrackItem, PlaybackAction, PlaybackEvent, PlaybackPhase, PlaybackReply, PlaybackSession,
    PlaybackStatus,
};
use portfolio_core::tokens::{TokenRecord, TokenResponse};

fn song_a() -> ApiTrackData {
    ApiTrackData {
        progress_ms: 1000,
        is_playing: true,
        item: ApiTrackItem {
            name: "Song A".to_string(),
            artists: vec![ApiTrackArtist { name: "Artist X".to_string() }],
            album: ApiTrackAlbum {
                release_date: "2020-01-01".to_string(),
                images: vec![
                    ApiTrackImage { url: "a".to_string() },
                    ApiTrackImage { url: "b".to_string() },
                ],
            },
            explicit: false,
            duration_ms: 200000,
        },
    }
}

fn tokens() -> TokenRecord {
    TokenRecord { access_token: "old-access".to_string(), refresh_token: "old-refresh".to_string() }
}

#[test]
fn playing_answer_becomes_active_track() {
    let r = reply(classify(200, Some(song_a())));
    assert_eq!(r.http_status(), 200);
    match r {
        PlaybackReply::Body(b) => {
            assert!(b.is_active);
            let t = b.track.expect("a track");
            assert_eq!(t.title, "Song A");
            assert_eq!(t.artist, "Artist X");
            assert_eq!(t.image, "b");
            assert_eq!(t.release_date, "2020-01-01");
            assert!(t.is_playing);
            assert!(!t.explicit);
            assert_eq!(t.duration, 200000);
            assert_eq!(t.progress, 1000);
        }
        _ => panic!("expected a body"),
    }
}

#[test]
fn snapshot_copies_paused_and_explicit_flags() {
    let mut d = song_a();
    d.is_playing = false;
    d.item.explicit = true;
    let t = track_snapshot(&d).expect("complete answer");
    assert!(!t.is_playing);
    assert!(t.explicit);
}

#[test]
fn snapshot_needs_second_image_and_an_artist() {
    let mut d = song_a();
    d.item.album.images.pop();
    assert!(track_snapshot(&d).is_none());
    let mut e = song_a();
    e.item.artists.clear();
    assert!(track_snapshot(&e).is_none());
}

#[test]
fn incomplete_ok_answer_keeps_its_status() {
    let mut d = song_a();
    d.item.album.images.clear();
    assert!(matches!(classify(200, Some(d)), PlaybackStatus::UpstreamError(200)));
    assert!(matches!(classify(200, None), PlaybackStatus::UpstreamError(200)));
}

#[test]
fn no_content_is_idle_not_an_error() {
    let s = classify(204, None);
    assert!(matches!(s, PlaybackStatus::Idle));
    let r = reply(s);
    assert_eq!(r.http_status(), 200);
    match r {
        PlaybackReply::Body(b) => {
            assert!(!b.is_active);
            assert!(b.track.is_none());
        }
        _ => panic!("expected a body"),
    }
}

#[test]
fn other_status_is_upstream_error() {
    assert!(matches!(classify(503, None), PlaybackStatus::UpstreamError(503)));
    assert_eq!(reply(classify(503, None)).http_status(), 500);
    assert!(matches!(classify(401, None), PlaybackStatus::Unauthorized));
    assert_eq!(reply(PlaybackStatus::Unauthorized).http_status(), 401);
}

#[test]
fn refused_twice_refreshes_once_and_ends_unauthorized() {
    let mut s = PlaybackSession::new(tokens());
    let mut refreshes = 0;
    let mut fetches = 0;
    let events = vec![
        PlaybackEvent::Begin,
        PlaybackEvent::Fetched { status: 401, body: None },
        PlaybackEvent::Refreshed(Some(TokenResponse {
            access_token: "new-access".to_string(),
            refresh_token: None,
        })),
        PlaybackEvent::Fetched { status: 401, body: None },
        PlaybackEvent::Fetched { status: 401, body: None },
        PlaybackEvent::Refreshed(None),
    ];
    let mut last = None;
    for e in events {
        match s.step(e) {
            PlaybackAction::Fetch { .. } | PlaybackAction::Retry { .. } => fetches += 1,
            PlaybackAction::Refresh { .. } => refreshes += 1,
            PlaybackAction::Finish(st) => last = Some(st),
            PlaybackAction::Wait => {}
        }
    }
    assert_eq!(refreshes, 1);
    assert_eq!(fetches, 2);
    assert!(matches!(last, Some(PlaybackStatus::Unauthorized)));
    assert!(matches!(s.phase, PlaybackPhase::Done));
}

#[test]
fn retry_uses_refreshed_token_and_keeps_refresh_token() {
    let mut s = PlaybackSession::new(tokens());
    match s.step(PlaybackEvent::Begin) {
        PlaybackAction::Fetch { access_token } => assert_eq!(access_token, "old-access"),
        _ => panic!("expected a fetch"),
    }
    match s.step(PlaybackEvent::Fetched { status: 401, body: None }) {
        PlaybackAction::Refresh { refresh_token } => assert_eq!(refresh_token, "old-refresh"),
        _ => panic!("expected a refresh"),
    }
    let resp = TokenResponse { access_token: "new-access".to_string(), refresh_token: None };
    match s.step(PlaybackEvent::Refreshed(Some(resp))) {
        PlaybackAction::Retry { access_token, save } => {
            assert_eq!(access_token, "new-access");
            let saved = save.expect("a record to store");
            assert_eq!(saved.access_token, "new-access");
            assert_eq!(saved.refresh_token, "old-refresh");
        }
        _ => panic!("expected a retry"),
    }
    match s.step(PlaybackEvent::Fetched { status: 200, body: Some(song_a()) }) {
        PlaybackAction::Finish(PlaybackStatus::Playing(t)) => assert_eq!(t.title, "Song A"),
        _ => panic!("expected the track"),
    }
}

#[test]
fn failed_refresh_retries_with_old_token_and_stores_nothing() {
    let mut s = PlaybackSession::new(tokens());
    s.step(PlaybackEvent::Begin);
    s.step(PlaybackEvent::Fetched { status: 401, body: None });
    match s.step(PlaybackEvent::Refreshed(None)) {
        PlaybackAction::Retry { access_token, save } => {
            assert_eq!(access_token, "old-access");
            assert!(save.is_none());
        }
        _ => panic!("expected a retry"),
    }
    match s.step(PlaybackEvent::Fetched { status: 204, body: None }) {
        PlaybackAction::Finish(PlaybackStatus::Idle) => {}
        _ => panic!("expected idle"),
    }
}

#[test]
fn first_answer_other_than_refused_finishes_at_once() {
    let mut s = PlaybackSession::new(tokens());
    s.step(PlaybackEvent::Begin);
    assert!(matches!(
        s.step(PlaybackEvent::Fetched { status: 500, body: None }),
        PlaybackAction::Finish(PlaybackStatus::UpstreamError(500))
    ));
    assert!(matches!(s.step(PlaybackEvent::Begin), PlaybackAction::Wait));
}

#[test]
fn unreachable_endpoint_is_a_failure_not_idle() {
    let mut s = PlaybackSession::new(tokens());
    s.step(PlaybackEvent::Begin);
    let st = match s.step(PlaybackEvent::FetchFailed) {
        PlaybackAction::Finish(st) => st,
        _ => panic!("expected the end"),
    };
    assert!(matches!(st, PlaybackStatus::Unreachable));
    assert_eq!(reply(st).http_status(), 500);
    let mut t = PlaybackSession::new(tokens());
    t.step(PlaybackEvent::Begin);
    t.step(PlaybackEvent::Fetched { status: 401, body: None });
    t.step(PlaybackEvent::Refreshed(None));
    assert!(matches!(
        t.step(PlaybackEvent::FetchFailed),
        PlaybackAction::Finish(PlaybackStatus::Unreachable)
    ));
}
