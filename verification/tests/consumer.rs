use orions_hands::config::{COLS, ROWS};
use orions_hands::consumer::{get_consumer, ConsumerChannel, ConsumerCode, ConsumerReport};
use orions_hands::transport::TransportOutcome;

fn grid(push: i32) -> [[i32; COLS]; ROWS] {
    let mut keys = [[0i32; COLS]; ROWS];
    keys[1][13] = push;
    keys
}

#[test]
fn consumer_rotation_alone_changes_volume() {
    assert_eq!(get_consumer(grid(0), 1, false, true), [ConsumerCode::VolumeIncrement]);
    assert_eq!(get_consumer(grid(0), -1, false, true), [ConsumerCode::VolumeDecrement]);
    assert_eq!(get_consumer(grid(0), 1, true, false), [ConsumerCode::VolumeIncrement]);
    assert_eq!(get_consumer(grid(0), -1, true, false), [ConsumerCode::VolumeDecrement]);
}

#[test]
fn consumer_rotation_while_held_selects_a_track() {
    for was_pressed in [false, true] {
        for can_push in [false, true] {
            assert_eq!(
                get_consumer(grid(1), 1, was_pressed, can_push),
                [ConsumerCode::ScanNextTrack]
            );
            assert_eq!(
                get_consumer(grid(1), -1, was_pressed, can_push),
                [ConsumerCode::ScanPreviousTrack]
            );
        }
    }
}

#[test]
fn consumer_release_after_a_clean_push_is_play_pause() {
    assert_eq!(get_consumer(grid(0), 0, true, true), [ConsumerCode::PlayPause]);
    assert_eq!(get_consumer(grid(0), 0, true, false), [ConsumerCode::Unassigned]);
    assert_eq!(get_consumer(grid(0), 0, false, true), [ConsumerCode::Unassigned]);
    assert_eq!(get_consumer(grid(1), 0, true, true), [ConsumerCode::Unassigned]);
}

#[test]
fn consumer_rotation_is_never_lost_to_play_pause() {
    assert_eq!(get_consumer(grid(0), 1, true, true), [ConsumerCode::VolumeIncrement]);
    assert_eq!(get_consumer(grid(0), -1, true, true), [ConsumerCode::VolumeDecrement]);
}

#[test]
fn consumer_nothing_happening_is_unassigned() {
    for push in [0, 1] {
        for was_pressed in [false, true] {
            for can_push in [false, true] {
                let expected = if push == 0 && was_pressed && can_push {
                    ConsumerCode::PlayPause
                } else {
                    ConsumerCode::Unassigned
                };
                assert_eq!(get_consumer(grid(push), 0, was_pressed, can_push), [expected]);
            }
        }
    }
}

#[test]
fn consumer_reads_only_the_push_button() {
    let mut keys = [[1i32; COLS]; ROWS];
    keys[1][13] = 0;
    assert_eq!(get_consumer(keys, 0, false, true), [ConsumerCode::Unassigned]);
    assert_eq!(get_consumer(keys, 1, false, true), [ConsumerCode::VolumeIncrement]);
}

#[test]
fn consumer_takes_unusual_values_as_they_come() {
    assert_eq!(get_consumer(grid(2), 1, true, true), [ConsumerCode::VolumeIncrement]);
    assert_eq!(get_consumer(grid(2), 0, true, true), [ConsumerCode::Unassigned]);
    assert_eq!(get_consumer(grid(1), 2, true, true), [ConsumerCode::Unassigned]);
    assert_eq!(get_consumer(grid(0), 7, false, false), [ConsumerCode::Unassigned]);
    assert_eq!(get_consumer(grid(0), 7, true, true), [ConsumerCode::PlayPause]);
}

#[test]
fn consumer_report_carries_one_code() {
    let report = ConsumerReport::from_code(ConsumerCode::PlayPause);
    assert_eq!(
        report.codes,
        [
            ConsumerCode::PlayPause,
            ConsumerCode::Unassigned,
            ConsumerCode::Unassigned,
            ConsumerCode::Unassigned
        ]
    );
    assert_eq!(ConsumerReport::empty().codes, [ConsumerCode::Unassigned; 4]);
    assert!(report.same_as(&ConsumerReport::from_code(ConsumerCode::PlayPause)));
    assert!(!report.same_as(&ConsumerReport::empty()));
    let shifted = ConsumerReport {
        codes: [
            ConsumerCode::Unassigned,
            ConsumerCode::Unassigned,
            ConsumerCode::Unassigned,
            ConsumerCode::PlayPause,
        ],
    };
    assert!(!shifted.same_as(&ConsumerReport::empty()));
    assert!(!shifted.same_as(&report));
}

#[test]
fn channel_starts_with_the_blank_report() {
    let channel = ConsumerChannel::new();
    assert!(!channel.needs_sending(&ConsumerReport::empty()));
    assert!(channel.needs_sending(&ConsumerReport::from_code(ConsumerCode::VolumeIncrement)));
}

#[test]
fn identical_report_twice_in_a_row_is_sent_once() {
    let mut channel = ConsumerChannel::new();
    let mut sink_calls = 0;
    let report = ConsumerReport::from_code(ConsumerCode::PlayPause);
    for _ in 0..2 {
        if channel.needs_sending(&report) {
            sink_calls += 1;
            channel.record(report, TransportOutcome::Accepted);
        }
    }
    assert_eq!(sink_calls, 1);
    assert!(channel.last.same_as(&report));
}

#[test]
fn busy_transport_gets_the_report_again() {
    let mut channel = ConsumerChannel::new();
    let mut sink_calls = 0;
    let report = ConsumerReport::from_code(ConsumerCode::VolumeDecrement);
    let answers = [
        TransportOutcome::Busy,
        TransportOutcome::Duplicate,
        TransportOutcome::Accepted,
        TransportOutcome::Accepted,
    ];
    for answer in answers {
        if channel.needs_sending(&report) {
            sink_calls += 1;
            channel.record(report, answer);
        }
    }
    assert_eq!(sink_calls, 3);
    assert!(!channel.needs_sending(&report));
    assert!(channel.needs_sending(&ConsumerReport::empty()));
}
