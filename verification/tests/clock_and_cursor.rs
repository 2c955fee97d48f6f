use platformer_player::animation::AnimationHandler;
use platformer_player::clock::FrameTimer;
use platformer_player::error::PlayerError;
use platformer_player::state::{FrameRange, BASE_FRAME_NANOS, RUN_FRAME_NANOS};

fn playing_cursor(current_frame: usize, min_frame: usize, max_frame: usize) -> AnimationHandler {
    AnimationHandler {
        current_frame,
        timer: FrameTimer { elapsed_nanos: 0, duration_nanos: BASE_FRAME_NANOS },
        is_playing: true,
        min_frame,
        max_frame,
    }
}

#[test]
fn new_timer_has_nothing_accumulated() {
    let timer = FrameTimer::new(BASE_FRAME_NANOS);
    assert_eq!(timer, FrameTimer { elapsed_nanos: 0, duration_nanos: 100_000_000 });
}

#[test]
fn tick_below_the_duration_accumulates() {
    let mut timer = FrameTimer::new(100);
    assert!(!timer.tick(30));
    assert_eq!(timer.elapsed_nanos, 30);
    assert!(!timer.tick(69));
    assert_eq!(timer.elapsed_nanos, 99);
    assert_eq!(timer.duration_nanos, 100);
}

#[test]
fn tick_that_reaches_the_duration_fires_and_wraps() {
    let mut timer = FrameTimer { elapsed_nanos: 99, duration_nanos: 100 };
    assert!(timer.tick(1));
    assert_eq!(timer.elapsed_nanos, 0);
}

#[test]
fn tick_carries_the_remainder() {
    let mut timer = FrameTimer { elapsed_nanos: 70_000_000, duration_nanos: 100_000_000 };
    assert!(timer.tick(50_000_000));
    assert_eq!(timer.elapsed_nanos, 20_000_000);
    assert_eq!(timer.duration_nanos, 100_000_000);
}

#[test]
fn long_tick_fires_once_and_keeps_what_is_left() {
    let mut timer = FrameTimer::new(100);
    assert!(timer.tick(350));
    assert_eq!(timer.elapsed_nanos, 50);
    assert!(!timer.tick(49));
    assert_eq!(timer.elapsed_nanos, 99);
}

#[test]
fn tick_of_nothing_leaves_the_timer() {
    let mut timer = FrameTimer { elapsed_nanos: 40, duration_nanos: 100 };
    assert!(!timer.tick(0));
    assert_eq!(timer, FrameTimer { elapsed_nanos: 40, duration_nanos: 100 });
}

#[test]
fn zero_duration_fires_on_every_tick() {
    let mut timer = FrameTimer { elapsed_nanos: 7, duration_nanos: 0 };
    assert!(timer.tick(0));
    assert_eq!(timer.elapsed_nanos, 0);
    assert!(timer.tick(12));
    assert_eq!(timer.elapsed_nanos, 0);
}

#[test]
fn tick_after_a_shorter_duration_was_set() {
    // 70 ms accumulated against 100 ms, then the duration drops to 50 ms.
    let mut timer = FrameTimer { elapsed_nanos: 70_000_000, duration_nanos: RUN_FRAME_NANOS };
    assert!(timer.tick(0));
    assert_eq!(timer.elapsed_nanos, 20_000_000);
}

#[test]
fn tick_with_the_largest_values() {
    let mut timer = FrameTimer { elapsed_nanos: u64::MAX, duration_nanos: u64::MAX };
    assert!(timer.tick(u64::MAX));
    // 2 * (2^64 - 1) is two whole durations.
    assert_eq!(timer.elapsed_nanos, 0);
    let mut other = FrameTimer { elapsed_nanos: u64::MAX - 1, duration_nanos: u64::MAX };
    assert!(other.tick(3));
    assert_eq!(other.elapsed_nanos, 2);
}

#[test]
fn new_cursor_is_stopped_on_its_first_frame() {
    let cursor = AnimationHandler::new(4, 11).unwrap();
    assert_eq!(cursor.current_frame, 4);
    assert_eq!(cursor.min_frame, 4);
    assert_eq!(cursor.max_frame, 11);
    assert!(!cursor.is_playing);
    assert_eq!(cursor.timer, FrameTimer { elapsed_nanos: 0, duration_nanos: 100_000_000 });
    assert!(cursor.is_well_formed());
}

#[test]
fn new_cursor_over_one_frame() {
    let cursor = AnimationHandler::new(0, 0).unwrap();
    assert_eq!(cursor.current_frame, 0);
    assert_eq!(cursor.frame_count(), 1);
}

#[test]
fn new_cursor_rejects_reversed_bounds() {
    assert_eq!(AnimationHandler::new(5, 3), Err(PlayerError::InvalidFrameBounds));
    assert_eq!(AnimationHandler::new(1, 0), Err(PlayerError::InvalidFrameBounds));
}

#[test]
fn new_cursor_rejects_a_last_frame_without_successor() {
    assert_eq!(AnimationHandler::new(0, usize::MAX), Err(PlayerError::InvalidFrameBounds));
    assert!(AnimationHandler::new(0, usize::MAX - 1).is_ok());
}

#[test]
fn well_formedness_is_tested_on_every_part() {
    assert!(playing_cursor(4, 4, 11).is_well_formed());
    assert!(playing_cursor(11, 4, 11).is_well_formed());
    assert!(!playing_cursor(3, 4, 11).is_well_formed());
    assert!(!playing_cursor(12, 4, 11).is_well_formed());
    assert!(!playing_cursor(5, 6, 4).is_well_formed());
    assert!(!playing_cursor(usize::MAX, 0, usize::MAX).is_well_formed());
}

#[test]
fn frame_count_counts_both_ends() {
    assert_eq!(playing_cursor(4, 4, 11).frame_count(), 8);
    assert_eq!(playing_cursor(20, 19, 21).frame_count(), 3);
}

#[test]
fn play_restarts_the_cursor_and_keeps_the_accumulated_time() {
    let mut cursor = AnimationHandler {
        current_frame: 9,
        timer: FrameTimer { elapsed_nanos: 70, duration_nanos: 100 },
        is_playing: false,
        min_frame: 4,
        max_frame: 11,
    };
    cursor.play(FrameRange { min_frame: 22, max_frame: 25 }, 50);
    assert_eq!(
        cursor,
        AnimationHandler {
            current_frame: 22,
            timer: FrameTimer { elapsed_nanos: 70, duration_nanos: 50 },
            is_playing: true,
            min_frame: 22,
            max_frame: 25,
        }
    );
}

#[test]
fn advance_moves_one_frame_and_reports_the_offset() {
    let mut cursor = playing_cursor(4, 4, 11);
    assert_eq!(cursor.advance(false), Some(1));
    assert_eq!(cursor.current_frame, 5);
    assert!(cursor.is_playing);
    assert_eq!(cursor.advance(true), Some(2));
    assert_eq!(cursor.current_frame, 6);
}

#[test]
fn advance_past_the_end_wraps_a_looping_animation() {
    let mut cursor = playing_cursor(3, 0, 3);
    assert_eq!(cursor.advance(true), Some(4));
    assert_eq!(cursor.current_frame, 0);
    assert!(cursor.is_playing);
}

#[test]
fn advance_past_the_end_clamps_and_stops_any_other() {
    let mut cursor = playing_cursor(11, 4, 11);
    assert_eq!(cursor.advance(false), Some(8));
    assert_eq!(cursor.current_frame, 11);
    assert!(!cursor.is_playing);
}

#[test]
fn advance_on_a_single_frame() {
    let mut still = playing_cursor(15, 15, 15);
    assert_eq!(still.advance(false), Some(1));
    assert_eq!(still.current_frame, 15);
    assert!(!still.is_playing);
    let mut looping = playing_cursor(15, 15, 15);
    assert_eq!(looping.advance(true), Some(1));
    assert_eq!(looping.current_frame, 15);
    assert!(looping.is_playing);
}

#[test]
fn a_stopped_cursor_does_not_advance() {
    let mut cursor = playing_cursor(6, 4, 11);
    cursor.is_playing = false;
    let before = cursor;
    assert_eq!(cursor.advance(false), None);
    assert_eq!(cursor, before);
    assert_eq!(cursor.advance(true), None);
    assert_eq!(cursor, before);
}
