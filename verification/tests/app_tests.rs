use playback::actions::{Action, Actions, Key};
use playback::app::{App, AppReturn};
use playback::dispatch::{DispatchError, Dispatcher, IoEvent};
use playback::session::{duration_clock, AppState};
use playback::status::Status;
use playback::track::Track;

fn playlist() -> Vec<Track> {
    vec![
        Track::new("first".to_string(), 90_000),
        Track::new("second".to_string(), 120_000),
        Track::new("third".to_string(), 150_000),
    ]
}

#[test]
fn app_state_starts_uninitialized() {
    let state = AppState::default();
    assert!(!state.is_initialized());
    assert_eq!(state.duration(), None);
    assert_eq!(state.total_duration(), None);
}

#[test]
fn app_state_initialized_holds_durations() {
    let state = AppState::initialized(180_000);
    assert!(state.is_initialized());
    assert_eq!(state.duration(), Some(0));
    assert_eq!(state.total_duration(), Some(180_000));
}

#[test]
fn app_state_update_duration_only_when_initialized() {
    let mut state = AppState::default();
    state.update_duration(5_000);
    assert_eq!(state.duration(), None);

    let mut state = AppState::initialized(180_000);
    state.update_duration(5_000);
    assert_eq!(state.duration(), Some(5_000));
    assert_eq!(state.total_duration(), Some(180_000));
}

#[test]
fn duration_clock_splits_minutes_and_seconds() {
    assert_eq!(duration_clock(0), (0, 0));
    assert_eq!(duration_clock(61_500), (1, 1));
    assert_eq!(duration_clock(3_599_999), (59, 59));
}

#[test]
fn actions_find_respects_available_set() {
    let only_quit = Actions::new(vec![Action::Quit]);
    assert_eq!(only_quit.find(Key::Char('q')), Some(Action::Quit));
    assert_eq!(only_quit.find(Key::Ctrl('c')), Some(Action::Quit));
    assert_eq!(only_quit.find(Key::Char('p')), None);
    assert_eq!(only_quit.find(Key::Enter), None);

    let all = Actions::new(vec![
        Action::Quit,
        Action::PlaySound,
        Action::PauseSound,
        Action::SelectNextTrack,
        Action::SelectPreviousTrack,
    ]);
    assert_eq!(all.find(Key::Char('p')), Some(Action::PlaySound));
    assert_eq!(all.find(Key::Char('s')), Some(Action::PauseSound));
    assert_eq!(all.find(Key::Down), Some(Action::SelectNextTrack));
    assert_eq!(all.find(Key::Up), Some(Action::SelectPreviousTrack));
}

#[test]
fn action_keys_and_labels() {
    assert_eq!(Action::Quit.keys(), vec![Key::Char('q'), Key::Ctrl('c')]);
    assert_eq!(Action::PlaySound.keys(), vec![Key::Char('p')]);
    assert_eq!(Action::Quit.label(), "Quit");
    assert_eq!(Action::SelectPreviousTrack.label(), "Previous track");
}

#[test]
fn new_app_only_allows_quit() {
    let mut app = App::new();
    assert!(!app.is_loading());
    assert!(!app.state().is_initialized());
    assert_eq!(app.do_action(Key::Char('q'), 0), AppReturn::Exit);
    // Transport keys are not yet available.
    assert_eq!(app.do_action(Key::Char('p'), 0), AppReturn::Continue);
    assert!(app.current_playlist().is_empty());
}

#[test]
fn initialized_commit_selects_and_loads_first_track() {
    let mut app = App::new();
    app.initialized(playlist());
    assert!(app.state().is_initialized());
    assert_eq!(app.state().total_duration(), Some(90_000));
    assert_eq!(app.displayed_tracks.selected(), Some(0));
    assert_eq!(app.current_playlist().len(), 3);
    assert_eq!(app.player.status(), Status::Paused(0));
    assert_eq!(app.actions().actions().len(), 5);
}

#[test]
fn initialized_commit_with_empty_playlist_is_safe() {
    let mut app = App::new();
    app.initialized(Vec::new());
    assert!(!app.state().is_initialized());
    assert_eq!(app.displayed_tracks.selected(), None);
    assert_eq!(app.player.status(), Status::Empty);
}

#[test]
fn tick_refreshes_elapsed_time() {
    let mut app = App::new();
    app.initialized(playlist());
    assert_eq!(app.do_action(Key::Char('p'), 1_000), AppReturn::Continue);
    assert_eq!(app.update_on_tick(4_000), AppReturn::Continue);
    assert_eq!(app.state().duration(), Some(3_000));
    assert_eq!(app.update_on_tick(9_000), AppReturn::Continue);
    assert_eq!(app.state().duration(), Some(8_000));
}

#[test]
fn pause_key_folds_elapsed_time() {
    let mut app = App::new();
    app.initialized(playlist());
    app.do_action(Key::Char('p'), 1_000);
    app.do_action(Key::Char('s'), 6_000);
    assert_eq!(app.player.status(), Status::Paused(5_000));
}

#[test]
fn selecting_other_track_requests_a_switch() {
    let mut app = App::new();
    app.initialized(playlist());
    app.do_action(Key::Down, 0);
    assert_eq!(app.displayed_tracks.selected(), Some(1));
    // Play on a different selection is submitted to the worker, not run here.
    app.do_action(Key::Char('p'), 0);
    assert!(app.is_loading());
    assert_eq!(app.next_io_event(), Some(IoEvent::SwitchTrack(1)));
    app.track_switched(1, 2_000);
    app.loaded();
    assert!(!app.is_loading());
    assert_eq!(app.player.status(), Status::Playing(2_000, 0));
    assert_eq!(app.state().total_duration(), Some(120_000));
}

#[test]
fn track_switched_with_stale_index_is_a_no_op() {
    let mut app = App::new();
    app.initialized(playlist());
    let before = app.state().total_duration();
    app.track_switched(7, 1_000);
    assert_eq!(app.state().total_duration(), before);
    assert_eq!(app.player.status(), Status::Paused(0));
}

#[test]
fn song_over_advances_cyclically() {
    let mut app = App::new();
    app.initialized(playlist());
    app.song_switched(1_000);
    assert_eq!(app.displayed_tracks.selected(), Some(1));
    assert_eq!(app.player.status(), Status::Playing(1_000, 0));
    app.song_switched(2_000);
    app.song_switched(3_000);
    // Wrapped back to the first track.
    assert_eq!(app.displayed_tracks.selected(), Some(0));
    assert_eq!(app.state().total_duration(), Some(90_000));
}

#[test]
fn two_submissions_commit_in_order_and_loading_clears_after_both() {
    let mut app = App::new();
    app.dispatch(IoEvent::Initialize).unwrap();
    app.dispatch(IoEvent::SongIsOver).unwrap();
    assert!(app.is_loading());

    // Worker drains in submission order.
    assert_eq!(app.next_io_event(), Some(IoEvent::Initialize));
    app.initialized(playlist());
    app.loaded();
    // One request is still outstanding: the indicator must stay up.
    assert!(app.is_loading());

    assert_eq!(app.next_io_event(), Some(IoEvent::SongIsOver));
    app.song_switched(1_000);
    app.loaded();
    assert!(!app.is_loading());
    assert_eq!(app.next_io_event(), None);
}

#[test]
fn refused_submission_leaves_dispatcher_unchanged() {
    let mut d = Dispatcher::new(1);
    assert_eq!(d.submit(IoEvent::Initialize), Ok(()));
    assert_eq!(d.submit(IoEvent::SongIsOver), Err(DispatchError::QueueFull));
    // The refused item was not queued and does not count as outstanding.
    assert_eq!(d.take(), Some(IoEvent::Initialize));
    assert_eq!(d.take(), None);
    assert!(d.is_busy());
    d.completed();
    assert!(!d.is_busy());
}

#[test]
fn closed_channel_refuses_submissions() {
    let mut d = Dispatcher::new(4);
    d.close();
    assert_eq!(d.submit(IoEvent::Initialize), Err(DispatchError::Closed));
    assert!(!d.is_busy());
}

#[test]
fn peek_next_matches_where_next_goes() {
    let mut app = App::new();
    assert_eq!(app.peek_next_index(), None);
    app.initialized(playlist());
    assert_eq!(app.peek_next_index(), Some(1));
    app.do_action(Key::Down, 0);
    app.do_action(Key::Down, 0);
    assert_eq!(app.peek_next_index(), Some(0));
}
