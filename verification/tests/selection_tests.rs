use playback::selection::DisplayedTracks;
use playback::track::Track;

fn three_tracks() -> Vec<Track> {
    vec![
        Track::new("a".to_string(), 60_000),
        Track::new("b".to_string(), 120_000),
        Track::new("c".to_string(), 180_000),
    ]
}

#[test]
fn next_wraps_from_last_to_first() {
    let mut s = DisplayedTracks::new();
    s.set_tracks(three_tracks());
    s.next();
    s.next();
    s.next();
    assert_eq!(s.selected(), Some(2));
    s.next();
    assert_eq!(s.selected(), Some(0));
}

#[test]
fn previous_wraps_from_first_to_last() {
    let mut s = DisplayedTracks::new();
    s.set_tracks(three_tracks());
    s.next();
    assert_eq!(s.selected(), Some(0));
    s.previous();
    assert_eq!(s.selected(), Some(2));
}

#[test]
fn next_then_previous_roundtrips() {
    let mut s = DisplayedTracks::new();
    s.set_tracks(three_tracks());
    s.next();
    s.next();
    let original = s.selected();
    for k in 1..5usize {
        for _ in 0..k {
            s.next();
        }
        for _ in 0..k {
            s.previous();
        }
        assert_eq!(s.selected(), original);
    }
}

#[test]
fn first_move_selects_first_track() {
    let mut s = DisplayedTracks::new();
    s.set_tracks(three_tracks());
    assert_eq!(s.selected(), None);
    s.next();
    assert_eq!(s.selected(), Some(0));

    let mut s = DisplayedTracks::new();
    s.set_tracks(three_tracks());
    s.previous();
    assert_eq!(s.selected(), Some(0));
}

#[test]
fn moves_on_empty_list_are_no_ops() {
    let mut s = DisplayedTracks::new();
    s.next();
    assert_eq!(s.selected(), None);
    s.previous();
    assert_eq!(s.selected(), None);
}

#[test]
fn set_tracks_clears_selection() {
    let mut s = DisplayedTracks::new();
    s.set_tracks(three_tracks());
    s.next();
    assert_eq!(s.selected(), Some(0));
    s.set_tracks(three_tracks());
    assert_eq!(s.selected(), None);
}

#[test]
fn unselect_keeps_tracks() {
    let mut s = DisplayedTracks::new();
    s.set_tracks(three_tracks());
    s.next();
    s.unselect();
    assert_eq!(s.selected(), None);
    assert_eq!(s.tracks.len(), 3);
}
