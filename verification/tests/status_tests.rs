use playback::status::Status;

#[test]
fn status_can_pause_and_play() {
    let mut status = Status::Playing(1_000, 0);
    status.pause(1_000);

    let duration = match status {
        Status::Paused(d) => d,
        _ => panic!("Unexpected value"),
    };

    status.play(3_000);

    assert_eq!(status.elapsed(3_000) / 1_000, duration / 1_000);
}

#[test]
fn elapsed_is_zero_when_empty() {
    assert_eq!(Status::Empty.elapsed(5_000), 0);
}

#[test]
fn repeated_play_does_not_double_count() {
    let mut status = Status::Paused(2_000);
    status.play(10_000);
    assert_eq!(status, Status::Playing(10_000, 2_000));
    status.play(14_000);
    assert_eq!(status, Status::Playing(10_000, 2_000));
    assert_eq!(status.elapsed(15_000), 7_000);
}

#[test]
fn repeated_pause_does_not_double_count() {
    let mut status = Status::Playing(1_000, 500);
    status.pause(4_000);
    assert_eq!(status, Status::Paused(3_500));
    status.pause(9_000);
    assert_eq!(status, Status::Paused(3_500));
}

#[test]
fn play_pause_cycles_accumulate_exactly_the_playing_time() {
    let mut status = Status::Paused(0);
    status.play(1_000);
    status.pause(3_000);
    status.play(10_000);
    status.pause(14_000);
    assert_eq!(status, Status::Paused(6_000));
    assert_eq!(status.elapsed(20_000), 6_000);
}

#[test]
fn elapsed_never_decreases_while_playing() {
    let status = Status::Playing(1_000, 2_000);
    let mut last = 0;
    for now in [1_000u64, 1_500, 2_000, 60_000] {
        let e = status.elapsed(now);
        assert!(e >= last);
        last = e;
    }
}
