use orions_hands::config::{
    line_active, COLS, CONFIRMED_PRESS, CONSUMER_REPORT_MS, DISPLAY_ON_MINUTES, FN_COL, FN_ROW,
    KEYBOARD_REPORT_MS, PHASE_A_ACTIVE_LOW, PHASE_B_ACTIVE_LOW, PUSH_COL, PUSH_ROW, ROWS,
    SWITCH_ACTIVE_LOW, TRANSPORT_TICK_MS,
};

#[test]
fn board_is_five_rows_of_fourteen_columns() {
    assert_eq!((ROWS, COLS), (5, 14));
    assert_eq!(CONFIRMED_PRESS, 4);
    assert_eq!((FN_ROW, FN_COL), (4, 10));
    assert_eq!((PUSH_ROW, PUSH_COL), (1, 13));
}

#[test]
fn intervals_are_as_configured() {
    assert_eq!(KEYBOARD_REPORT_MS, 1);
    assert_eq!(TRANSPORT_TICK_MS, 1);
    assert_eq!(CONSUMER_REPORT_MS, 1);
    assert_eq!(DISPLAY_ON_MINUTES, 5);
}

#[test]
fn line_levels_follow_the_polarity() {
    assert!(line_active(true, true));
    assert!(!line_active(false, true));
    assert!(line_active(false, false));
    assert!(!line_active(true, false));
    assert!(SWITCH_ACTIVE_LOW);
    assert!(PHASE_A_ACTIVE_LOW);
    assert!(!PHASE_B_ACTIVE_LOW);
}

#[test]
fn low_phase_a_with_low_phase_b_is_a_clockwise_step() {
    let mut rotary = orions_hands::rotary::Rotary::new(
        line_active(false, PHASE_A_ACTIVE_LOW),
        line_active(true, PHASE_B_ACTIVE_LOW),
    );
    rotary.sample(
        line_active(true, PHASE_A_ACTIVE_LOW),
        line_active(true, PHASE_B_ACTIVE_LOW),
    );
    assert_eq!(rotary.dir, orions_hands::rotary::CLOCKWISE);
    let mut rotary = orions_hands::rotary::Rotary::new(
        line_active(false, PHASE_A_ACTIVE_LOW),
        line_active(false, PHASE_B_ACTIVE_LOW),
    );
    rotary.sample(
        line_active(true, PHASE_A_ACTIVE_LOW),
        line_active(false, PHASE_B_ACTIVE_LOW),
    );
    assert_eq!(rotary.dir, orions_hands::rotary::COUNTER_CLOCKWISE);
}
