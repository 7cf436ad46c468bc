use playback::player::{Player, PlayerError};
use playback::status::Status;
use playback::track::Track;

fn some_track() -> Track {
    Track::new("Some Track".to_string(), 180_000)
}

#[test]
fn track_can_get_total_duration() {
    let track = some_track();
    let total_duration_ms = track.total_duration().unwrap();
    assert!(total_duration_ms / 1_000 > 60);
}

#[test]
fn track_title_is_kept() {
    let track = some_track();
    assert_eq!(track.title(), "Some Track".to_string());
}

#[test]
fn track_cache_file_is_keyed_by_title() {
    let track = some_track();
    assert_eq!(track.filename(), "Some Track.mp3".to_string());
}

#[test]
fn player_can_get_status() {
    let mut player = Player::default();
    assert_eq!(Status::Empty, player.status());

    player.load(some_track());
    player.play(1_000).unwrap();

    player.pause(3_000).unwrap();
    let status = player.status();
    assert_eq!(status.elapsed(3_000) / 1_000, 2);

    let status = player.status();
    assert_eq!(status.elapsed(3_000) / 1_000, 2);
}

#[test]
fn load_forces_paused_at_zero() {
    let mut player = Player::new();
    player.load(some_track());
    assert_eq!(player.status(), Status::Paused(0));

    // A second load mid-playback resets the accounting again.
    player.play(1_000).unwrap();
    player.pause(8_000).unwrap();
    assert_eq!(player.status(), Status::Paused(7_000));
    player.load(Track::new("Another".to_string(), 120_000));
    assert_eq!(player.status(), Status::Paused(0));
    assert!(!player.sink.is_idle());
    assert!(player.sink.paused);
}

#[test]
fn stop_always_empties_regardless_of_prior_state() {
    // Never loaded.
    let mut player = Player::new();
    player.stop();
    assert_eq!(player.status(), Status::Empty);
    assert!(player.sink.is_idle());

    // Paused.
    player.load(some_track());
    player.stop();
    assert_eq!(player.status(), Status::Empty);
    assert!(player.sink.is_idle());

    // Playing.
    player.load(some_track());
    player.play(500).unwrap();
    player.stop();
    assert_eq!(player.status(), Status::Empty);
    assert!(player.sink.is_idle());
}

#[test]
fn play_after_stop_is_rejected() {
    let mut player = Player::new();
    player.load(some_track());
    player.play(1_000).unwrap();
    player.stop();
    assert_eq!(player.play(2_000), Err(PlayerError::NothingLoaded));
    assert_eq!(player.pause(2_000), Err(PlayerError::NothingLoaded));
    assert_eq!(player.status(), Status::Empty);
}

#[test]
fn drained_sink_reconciles_to_empty_on_status_query() {
    let mut player = Player::new();
    player.load(some_track());
    player.play(1_000).unwrap();
    player.sink_drained();
    assert_eq!(player.status(), Status::Empty);
    assert!(player.current.is_none());
}

#[test]
fn scenario_load_play_pause_resume_stop() {
    let mut player = Player::new();
    assert_eq!(player.status(), Status::Empty);

    player.load(Track::new("trackA".to_string(), 180_000));
    assert_eq!(player.status(), Status::Paused(0));
    assert_eq!(player.status().elapsed(0), 0);

    player.play(1_000).unwrap();
    // 5 simulated seconds pass.
    player.pause(6_000).unwrap();
    assert_eq!(player.status().elapsed(6_000), 5_000);

    player.play(7_000).unwrap();
    // 3 more simulated seconds pass.
    assert_eq!(player.status().elapsed(10_000), 8_000);

    player.stop();
    assert_eq!(player.status(), Status::Empty);
    assert_eq!(player.play(10_000), Err(PlayerError::NothingLoaded));
}
