use orions_hands::config::{COLS, ROWS};
use orions_hands::consumer::{get_consumer, ConsumerCode};
use orions_hands::rotary::{Gesture, Rotary, CLOCKWISE, COUNTER_CLOCKWISE, NO_ROTATION};

fn code(rotary: &Rotary, push: i32) -> ConsumerCode {
    let mut keys = [[0i32; COLS]; ROWS];
    keys[1][13] = push;
    get_consumer(keys, rotary.dir, rotary.was_pressed, rotary.can_push)[0]
}

#[test]
fn new_rotary_is_at_rest() {
    let rotary = Rotary::new(true, false);
    assert_eq!(
        rotary,
        Rotary { a_last: true, b_last: false, was_pressed: false, can_push: true, dir: 0 }
    );
    assert_eq!(rotary.gesture(), Gesture::Idle);
    assert_eq!((CLOCKWISE, COUNTER_CLOCKWISE, NO_ROTATION), (1, -1, 0));
}

#[test]
fn phase_a_rising_with_phase_b_inactive_is_clockwise() {
    let mut rotary = Rotary::new(false, false);
    rotary.sample(true, false);
    assert_eq!(rotary.dir, CLOCKWISE);
    assert!(!rotary.can_push);
    assert!(rotary.a_last);
    assert!(!rotary.b_last);
}

#[test]
fn phase_a_rising_with_phase_b_active_is_counter_clockwise() {
    let mut rotary = Rotary::new(false, true);
    rotary.sample(true, true);
    assert_eq!(rotary.dir, COUNTER_CLOCKWISE);
    assert!(!rotary.can_push);
}

#[test]
fn phase_a_falling_is_no_rotation() {
    let mut rotary = Rotary::new(true, false);
    rotary.sample(false, false);
    assert_eq!(
        rotary,
        Rotary { a_last: false, b_last: false, was_pressed: false, can_push: true, dir: 0 }
    );
}

#[test]
fn steady_phases_are_no_rotation() {
    let mut rotary = Rotary::new(true, true);
    rotary.sample(true, true);
    assert_eq!(rotary, Rotary::new(true, true));
    rotary.sample(true, false);
    assert_eq!(rotary.dir, NO_ROTATION);
    assert!(rotary.can_push);
    assert!(!rotary.b_last);
}

#[test]
fn both_phases_changing_at_once_is_no_rotation() {
    let mut rotary = Rotary::new(false, false);
    rotary.sample(true, true);
    assert_eq!(
        rotary,
        Rotary { a_last: true, b_last: true, was_pressed: false, can_push: true, dir: 0 }
    );
    let mut rotary = Rotary::new(false, true);
    rotary.sample(true, false);
    assert_eq!(rotary.dir, NO_ROTATION);
    assert!(rotary.can_push);
}

#[test]
fn later_rotation_replaces_the_pending_direction() {
    let mut rotary = Rotary::new(false, false);
    rotary.sample(true, false);
    rotary.sample(false, false);
    assert_eq!(rotary.dir, CLOCKWISE);
    rotary.sample(false, true);
    rotary.sample(true, true);
    assert_eq!(rotary.dir, COUNTER_CLOCKWISE);
}

#[test]
fn press_is_remembered_until_the_report() {
    let mut rotary = Rotary::new(false, false);
    rotary.note_push(false);
    assert!(!rotary.was_pressed);
    rotary.note_push(true);
    assert!(rotary.was_pressed);
    rotary.note_push(false);
    assert!(rotary.was_pressed);
    rotary.finish_report(false);
    assert!(!rotary.was_pressed);
}

#[test]
fn clockwise_turn_then_push_and_release_is_no_play_pause() {
    let mut rotary = Rotary::new(false, false);
    rotary.sample(true, false);
    assert_eq!(code(&rotary, 0), ConsumerCode::VolumeIncrement);
    rotary.note_push(true);
    assert_eq!(rotary.gesture(), Gesture::PushedAndRotated);
    assert_eq!(code(&rotary, 1), ConsumerCode::ScanNextTrack);
    rotary.note_push(false);
    assert_eq!(code(&rotary, 0), ConsumerCode::VolumeIncrement);
    assert_ne!(code(&rotary, 0), ConsumerCode::PlayPause);
    rotary.finish_report(false);
    assert_eq!(code(&rotary, 0), ConsumerCode::Unassigned);
    assert!(rotary.can_push);
}

#[test]
fn counter_clockwise_turn_while_held_selects_the_previous_track() {
    let mut rotary = Rotary::new(false, true);
    rotary.note_push(true);
    assert_eq!(rotary.gesture(), Gesture::Pushed);
    rotary.sample(true, true);
    assert_eq!(rotary.gesture(), Gesture::PushedAndRotated);
    assert_eq!(code(&rotary, 1), ConsumerCode::ScanPreviousTrack);
    rotary.finish_report(true);
    assert!(!rotary.can_push);
    rotary.note_push(true);
    assert_eq!(code(&rotary, 1), ConsumerCode::Unassigned);
    rotary.note_push(false);
    assert_eq!(code(&rotary, 0), ConsumerCode::Unassigned);
    rotary.finish_report(false);
    assert!(rotary.can_push);
    assert_eq!(rotary.gesture(), Gesture::Idle);
}

#[test]
fn push_alone_emits_play_pause_exactly_once() {
    let mut rotary = Rotary::new(true, true);
    let mut plays = 0;
    rotary.note_push(true);
    if code(&rotary, 1) == ConsumerCode::PlayPause {
        plays += 1;
    }
    assert_eq!(code(&rotary, 1), ConsumerCode::Unassigned);
    rotary.finish_report(true);
    rotary.note_push(true);
    rotary.note_push(false);
    for _ in 0..5 {
        if code(&rotary, 0) == ConsumerCode::PlayPause {
            plays += 1;
        }
        rotary.finish_report(false);
        rotary.note_push(false);
        rotary.sample(true, true);
    }
    assert_eq!(plays, 1);
}

#[test]
fn report_forgets_rotation_and_press() {
    let mut rotary = Rotary::new(false, false);
    rotary.sample(true, false);
    rotary.note_push(true);
    rotary.finish_report(true);
    assert_eq!(
        rotary,
        Rotary { a_last: true, b_last: false, was_pressed: false, can_push: false, dir: 0 }
    );
    rotary.finish_report(false);
    assert_eq!(
        rotary,
        Rotary { a_last: true, b_last: false, was_pressed: false, can_push: true, dir: 0 }
    );
}
