use ferristream::episodes::sort_episodes;
use ferristream::media::{StreamError, VideoFile};
use ferristream::race::{race_outcome_in_order, RaceAction, RaceState};
use ferristream::resolve::{magnet_from_location, redirect_hop, resolve_redirect, RedirectStep};
use ferristream::app::{App, Screen, SessionAction, StreamingState};

fn video(name: &str, idx: usize) -> VideoFile {
    VideoFile {
        name: name.to_string(),
        file_idx: idx,
        size: 1000,
        stream_url: format!("http://e/torrents/9/stream/{}", idx),
    }
}

#[test]
fn race_first_passing_candidate_wins() {
    // candidates 0 and 1 fail or are rejected; candidate 2 passes
    let verdicts = vec![false, false, true, true, false];
    assert_eq!(race_outcome_in_order(&verdicts, 3), Some(2));
    // with a width of one the same winner is found
    assert_eq!(race_outcome_in_order(&verdicts, 1), Some(2));
}

#[test]
fn race_exhausts_without_winner() {
    let verdicts = vec![false, false, false];
    assert_eq!(race_outcome_in_order(&verdicts, 2), None);
}

#[test]
fn race_empty_candidate_list_fails_immediately() {
    let (st, spawned) = RaceState::start(0, 3);
    assert!(st.finished);
    assert!(spawned.is_empty());
    assert_eq!(race_outcome_in_order(&Vec::new(), 3), None);
}

#[test]
fn race_admission_width_bounds_spawns() {
    let (st, spawned) = RaceState::start(10, 3);
    assert_eq!(spawned, vec![0, 1, 2]);
    assert_eq!(st.in_flight, 3);
    assert_eq!(st.next_idx, 3);

    // a failure keeps the pool at its width by starting the next candidate
    let mut st = st;
    match st.on_result(false) {
        RaceAction::Spawn(i) => assert_eq!(i, 3),
        _ => panic!("expected a replacement spawn"),
    }
    assert_eq!(st.in_flight, 3);
}

#[test]
fn race_cancellation_spawns_nothing_further() {
    let (mut st, spawned) = RaceState::start(8, 2);
    assert_eq!(spawned.len(), 2);
    st.on_cancel();
    assert!(st.finished);
    // no further candidate was started
    assert_eq!(st.next_idx, 2);
    assert_eq!(st.in_flight, 2);
}

#[test]
fn race_acceptance_wins() {
    let (mut st, _) = RaceState::start(5, 2);
    assert!(matches!(st.on_result(true), RaceAction::Accept));
    assert!(st.finished);
}

#[test]
fn redirect_magnet_restarts_resolution() {
    // hop 3 of 10 carries a magnet: a distinct success path, not a failure
    match redirect_hop(302, Some("magnet:?xt=urn:btih:abc"), 3, "http://t.example/get") {
        RedirectStep::Magnet(m) => assert_eq!(m, "magnet:?xt=urn:btih:abc"),
        _ => panic!("expected the magnet path"),
    }
}

#[test]
fn redirect_hop_limit_and_statuses() {
    assert!(matches!(
        redirect_hop(200, None, 0, "http://x"),
        RedirectStep::Success
    ));
    assert!(matches!(
        redirect_hop(404, None, 0, "http://x"),
        RedirectStep::Fail(StreamError::TorrentError(_))
    ));
    assert!(matches!(
        redirect_hop(302, Some("/next"), 10, "http://x"),
        RedirectStep::Fail(_)
    ));
    assert!(matches!(
        redirect_hop(302, None, 0, "http://x"),
        RedirectStep::Fail(_)
    ));
    match redirect_hop(301, Some("http://other.example/file.torrent"), 0, "http://x") {
        RedirectStep::Follow(u) => assert_eq!(u, "http://other.example/file.torrent"),
        _ => panic!("expected a follow"),
    }
}

#[test]
fn redirect_targets_resolve_against_current_url() {
    assert_eq!(
        resolve_redirect("http://host.example:8080/dir/file", "/abs/path").unwrap(),
        "http://host.example/abs/path"
    );
    assert_eq!(
        resolve_redirect("http://host.example/dir/file", "other.torrent").unwrap(),
        "http://host.example/dir/other.torrent"
    );
}

#[test]
fn magnet_extraction_from_location() {
    assert_eq!(
        magnet_from_location("magnet:?xt=urn:btih:x"),
        Some("magnet:?xt=urn:btih:x".to_string())
    );
    assert_eq!(
        magnet_from_location("/out?target=magnet:?xt=urn:btih:y"),
        Some("magnet:?xt=urn:btih:y".to_string())
    );
    assert_eq!(magnet_from_location("/plain/redirect"), None);
}

#[test]
fn season_pack_auto_advance_and_teardown() {
    // a season pack with 3 video files, auto-advance enabled: player exits
    // drive 0 -> 1 -> 2, and the third exit tears the session down
    let mut app = App::new();
    app.available_files = vec![
        video("Show.S01E01.mkv", 0),
        video("Show.S01E02.mkv", 1),
        video("Show.S01E03.mkv", 2),
    ];
    app.current_episode_index = 0;
    app.auto_play_next = true;
    app.is_streaming = true;
    app.pending_torrent_id = Some(9);

    let actions = app.handle_player_exited(0);
    assert_eq!(app.current_episode_index, 1);
    assert!(matches!(
        actions.last(),
        Some(SessionAction::LaunchPlayer { .. })
    ));
    // the episode after the next one is pre-fetched
    assert!(actions
        .iter()
        .any(|a| matches!(a, SessionAction::PrefetchFile { file_idx: 2, .. })));

    let actions = app.handle_player_exited(0);
    assert_eq!(app.current_episode_index, 2);
    assert!(matches!(
        actions.last(),
        Some(SessionAction::LaunchPlayer { .. })
    ));

    let actions = app.handle_player_exited(0);
    assert!(matches!(actions.last(), Some(SessionAction::Teardown)));
    assert!(app.available_files.is_empty());
    assert!(!app.is_streaming);
    assert!(app.view == Screen::Results);
    assert!(app.streaming_state == StreamingState::Connecting);
}

#[test]
fn sort_episodes_is_stable() {
    // equal keys (no parseable episode) keep their input order
    let mut files = vec![
        VideoFile {
            name: "First.Special.mkv".to_string(),
            file_idx: 0,
            size: 1,
            stream_url: String::new(),
        },
        VideoFile {
            name: "Show.S01E01.mkv".to_string(),
            file_idx: 1,
            size: 1,
            stream_url: String::new(),
        },
        VideoFile {
            name: "Second.Special.mkv".to_string(),
            file_idx: 2,
            size: 1,
            stream_url: String::new(),
        },
    ];
    sort_episodes(&mut files);
    assert_eq!(files[0].name, "Show.S01E01.mkv");
    assert_eq!(files[1].name, "First.Special.mkv");
    assert_eq!(files[2].name, "Second.Special.mkv");
}

#[test]
fn player_exit_without_auto_advance_opens_picker() {
    let mut app = App::new();
    app.available_files = vec![video("Show.S01E01.mkv", 0), video("Show.S01E02.mkv", 1)];
    app.current_episode_index = 0;
    app.auto_play_next = false;

    let actions = app.handle_player_exited(0);
    assert_eq!(actions.len(), 1);
    assert!(app.view == Screen::FileSelection);
    assert_eq!(app.selected_file_index, 1);
    assert_eq!(app.current_episode_index, 0);
}

#[test]
fn watched_percent_prefers_player_position() {
    let mut app = App::new();
    app.playback_progress = 73;
    let actions = app.handle_player_exited(0);
    assert!(matches!(
        actions[0],
        SessionAction::RecordWatched { watched_percent: 73 }
    ));
}
