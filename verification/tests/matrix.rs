use orions_hands::config::{COLS, CONFIRMED_PRESS, ROWS};
use orions_hands::matrix::{debounce, KeyMatrix};

fn repeat_cell(counter: i32, pressed: i32, reads: &[bool], threshold: i32) -> (i32, i32) {
    let mut state = (counter, pressed);
    for &active in reads {
        state = debounce(state.0, state.1, active, threshold);
    }
    state
}

#[test]
fn debounce_counts_up_inside_the_band() {
    assert_eq!(debounce(0, 0, true, 4), (1, 0));
    assert_eq!(debounce(3, 0, true, 4), (4, 0));
    assert_eq!(debounce(-4, 1, true, 4), (-3, 1));
}

#[test]
fn debounce_counts_down_inside_the_band() {
    assert_eq!(debounce(0, 1, false, 4), (-1, 1));
    assert_eq!(debounce(-3, 1, false, 4), (-4, 1));
    assert_eq!(debounce(4, 0, false, 4), (3, 0));
}

#[test]
fn debounce_confirms_a_press_past_the_threshold() {
    assert_eq!(debounce(4, 0, true, 4), (0, 1));
    assert_eq!(debounce(4, 1, true, 4), (0, 1));
}

#[test]
fn debounce_confirms_a_release_past_the_threshold() {
    assert_eq!(debounce(-4, 1, false, 4), (0, 0));
    assert_eq!(debounce(-4, 0, false, 4), (0, 0));
}

#[test]
fn debounce_with_threshold_zero_follows_every_reading() {
    assert_eq!(debounce(0, 0, true, 0), (0, 1));
    assert_eq!(debounce(0, 1, false, 0), (0, 0));
}

#[test]
fn debounce_is_total_at_the_ends_of_the_integers() {
    assert_eq!(debounce(i32::MAX, 0, true, i32::MAX), (0, 1));
    assert_eq!(debounce(i32::MAX - 1, 0, true, i32::MAX), (i32::MAX, 0));
    assert_eq!(debounce(i32::MIN, 1, false, 4), (0, 0));
    assert_eq!(debounce(0, 1, false, i32::MIN), (0, 0));
    assert_eq!(debounce(i32::MIN + 2, 1, false, i32::MAX), (i32::MIN + 1, 1));
    assert_eq!(debounce(i32::MIN + 1, 1, false, i32::MAX), (0, 0));
}

#[test]
fn chatter_for_six_reads_never_commits_a_press() {
    let reads = [true, false, true, false, true, false];
    assert_eq!(repeat_cell(0, 0, &reads, 4), (0, 0));
    let mut state = (0, 0);
    for &active in &reads {
        state = debounce(state.0, state.1, active, 4);
        assert_eq!(state.1, 0);
        assert!(state.0 == 0 || state.0 == 1);
    }
}

#[test]
fn chatter_never_releases_a_pressed_key() {
    let reads = [false, true, false, true, false, true, false];
    assert_eq!(repeat_cell(0, 1, &reads, 4), (-1, 1));
}

#[test]
fn noise_that_stays_inside_the_band_changes_nothing() {
    let reads = [true, true, true, true, false, false, false, false, false, false, false, false];
    assert_eq!(repeat_cell(0, 0, &reads, 4), (-4, 0));
    let reads = [false, false, false, false, true, true, true, true, true, true, true, true];
    assert_eq!(repeat_cell(0, 1, &reads, 4), (4, 1));
}

#[test]
fn sustained_press_commits_after_threshold_plus_one_reads() {
    assert_eq!(repeat_cell(0, 0, &[true; 4], 4), (4, 0));
    assert_eq!(repeat_cell(0, 0, &[true; 5], 4), (0, 1));
}

#[test]
fn sustained_release_commits_after_threshold_plus_one_reads() {
    assert_eq!(repeat_cell(0, 1, &[false; 4], 4), (-4, 1));
    assert_eq!(repeat_cell(0, 1, &[false; 5], 4), (0, 0));
}

#[test]
fn held_press_commits_from_anywhere_in_the_band() {
    assert_eq!(repeat_cell(-4, 0, &[true; 8], 4), (4, 0));
    assert_eq!(repeat_cell(-4, 0, &[true; 9], 4), (0, 1));
    assert_eq!(repeat_cell(2, 0, &[true; 5], 4), (2, 1));
}

#[test]
fn new_matrix_is_released_and_at_rest() {
    let matrix = KeyMatrix::new(CONFIRMED_PRESS);
    assert_eq!(matrix.threshold, 4);
    assert_eq!(matrix.pressed, [[0; COLS]; ROWS]);
    assert_eq!(matrix.debounce, [[0; COLS]; ROWS]);
    assert!(!matrix.any_pressed());
}

#[test]
fn debounce_cell_touches_one_key_only() {
    let mut matrix = KeyMatrix::new(4);
    matrix.debounce_cell(2, 3, true);
    let mut expected = [[0; COLS]; ROWS];
    expected[2][3] = 1;
    assert_eq!(matrix.debounce, expected);
    assert_eq!(matrix.pressed, [[0; COLS]; ROWS]);
}

#[test]
fn scan_column_touches_one_column_only() {
    let mut matrix = KeyMatrix::new(4);
    matrix.scan_column(13, &[true, false, true, false, false]);
    for row in 0..ROWS {
        for col in 0..COLS {
            let expected = if col != 13 {
                0
            } else if row == 0 || row == 2 {
                1
            } else {
                -1
            };
            assert_eq!(matrix.debounce[row][col], expected);
        }
    }
    assert_eq!(matrix.pressed, [[0; COLS]; ROWS]);
}

#[test]
fn scan_pass_gives_every_key_its_reading() {
    let mut matrix = KeyMatrix::new(4);
    let mut readings = [[false; COLS]; ROWS];
    readings[0][0] = true;
    readings[4][13] = true;
    readings[2][7] = true;
    matrix.scan_pass(&readings);
    for row in 0..ROWS {
        for col in 0..COLS {
            let expected = if readings[row][col] { 1 } else { -1 };
            assert_eq!(matrix.debounce[row][col], expected);
        }
    }
    assert!(!matrix.any_pressed());
}

#[test]
fn five_scan_passes_press_a_held_key_and_reset_its_counter() {
    let mut matrix = KeyMatrix::new(4);
    let mut readings = [[false; COLS]; ROWS];
    readings[3][9] = true;
    for _ in 0..4 {
        matrix.scan_pass(&readings);
        assert!(!matrix.is_pressed(3, 9));
    }
    assert_eq!(matrix.debounce[3][9], 4);
    matrix.scan_pass(&readings);
    assert!(matrix.is_pressed(3, 9));
    assert_eq!(matrix.pressed[3][9], 1);
    assert_eq!(matrix.debounce[3][9], 0);
    assert!(matrix.any_pressed());
    let mut expected = [[0; COLS]; ROWS];
    expected[3][9] = 1;
    assert_eq!(matrix.pressed, expected);
    assert_eq!(matrix.debounce[0][0], 0);
    assert_eq!(matrix.debounce[3][8], 0);
}

#[test]
fn five_scan_passes_release_a_key_that_was_let_go() {
    let mut matrix = KeyMatrix::new(4);
    matrix.pressed[1][1] = 1;
    let readings = [[false; COLS]; ROWS];
    for _ in 0..4 {
        matrix.scan_pass(&readings);
        assert!(matrix.is_pressed(1, 1));
    }
    matrix.scan_pass(&readings);
    assert!(!matrix.is_pressed(1, 1));
    assert_eq!(matrix.debounce[1][1], 0);
}

#[test]
fn counters_stay_within_the_threshold() {
    let mut matrix = KeyMatrix::new(4);
    let mut readings = [[false; COLS]; ROWS];
    for pass in 0..40 {
        for row in 0..ROWS {
            for col in 0..COLS {
                readings[row][col] = (pass * 7 + row * 3 + col) % 5 < 3;
            }
        }
        matrix.scan_pass(&readings);
        for row in 0..ROWS {
            for col in 0..COLS {
                assert!(-4 <= matrix.debounce[row][col] && matrix.debounce[row][col] <= 4);
                assert!(matrix.pressed[row][col] == 0 || matrix.pressed[row][col] == 1);
            }
        }
    }
}

#[test]
fn only_the_value_one_counts_as_pressed() {
    let mut matrix = KeyMatrix::new(4);
    matrix.pressed[0][5] = 2;
    assert!(!matrix.is_pressed(0, 5));
    assert!(!matrix.any_pressed());
    matrix.pressed[4][13] = 1;
    assert!(matrix.any_pressed());
}
