//! Consumer (media) control: which code the rotary encoder and its push
//! button produce, and when a consumer report is worth sending.
use vstd::prelude::*;
use crate::config::Grid;
use crate::transport::TransportOutcome;

verus! {

/// A usage of the USB HID consumer page, as far as this board sends them.
#[derive(Clone, Copy, Debug, PartialEq, Eq, Structural)]
pub enum ConsumerCode {
    /// No control is operated.
    Unassigned,
    PlayPause,
    ScanNextTrack,
    ScanPreviousTrack,
    VolumeIncrement,
    VolumeDecrement,
}

/// The consumer code for one report period.
///
/// `push` is the pressed state of the encoder's push button (1 pressed,
/// 0 released), `rot_dir` the rotation seen in the period (1 clockwise,
/// -1 counter-clockwise, 0 none), `rot_released` whether the button was
/// seen pressed in the period, `rot_can_push` whether a push may still
/// count as play/pause.
///
/// The first matching line wins:
/// - the button is up again after a press, the push still counts and the
///   encoder has not turned: play/pause;
/// - the button is held and the encoder turned: next or previous track;
/// - the encoder turned: volume up or down;
/// - otherwise nothing.
pub open spec fn consumer_choice(
    push: int,
    rot_dir: int,
    rot_released: bool,
    rot_can_push: bool,
) -> ConsumerCode {
    if push == 0 && rot_released && rot_can_push && rot_dir != 1 && rot_dir != -1 {
        ConsumerCode::PlayPause
    } else if push == 1 && rot_dir == 1 {
        ConsumerCode::ScanNextTrack
    } else if push == 1 && rot_dir == -1 {
        ConsumerCode::ScanPreviousTrack
    } else if rot_dir == 1 {
        ConsumerCode::VolumeIncrement
    } else if rot_dir == -1 {
        ConsumerCode::VolumeDecrement
    } else {
        ConsumerCode::Unassigned
    }
}

/// Encodes the consumer control for one report period from the pressed
/// grid and the state of the rotary encoder.
pub fn get_consumer(keys: Grid, rot_dir: i32, rot_released: bool, rot_can_push: bool) -> (codes:
    [ConsumerCode; 1])
    ensures
        codes[0] == consumer_choice(keys[1][13] as int, rot_dir as int, rot_released, rot_can_push),
{
    [
        if keys[1][13] == 0 && rot_released && rot_can_push && rot_dir != 1 && rot_dir != -1 {
            ConsumerCode::PlayPause
        } else if keys[1][13] == 1 && rot_dir == 1 {
            ConsumerCode::ScanNextTrack
        } else if keys[1][13] == 1 && rot_dir == -1 {
            ConsumerCode::ScanPreviousTrack
        } else if rot_dir == 1 {
            ConsumerCode::VolumeIncrement
        } else if rot_dir == -1 {
            ConsumerCode::VolumeDecrement
        } else {
            ConsumerCode::Unassigned
        },
    ]
}

/// Play/pause is chosen exactly when the button is up, was pressed in the
/// period, the push still counts and the encoder has not turned.
pub proof fn lemma_play_pause_iff(push: int, rot_dir: int, rot_released: bool, rot_can_push: bool)
    ensures
        consumer_choice(push, rot_dir, rot_released, rot_can_push) == ConsumerCode::PlayPause <==> (
        push == 0 && rot_released && rot_can_push && rot_dir != 1 && rot_dir != -1),
{
}

/// A rotation is never lost to play/pause: whenever the encoder has
/// turned, the report carries the rotation, as a track step while the
/// button is held and as a volume step otherwise.
pub proof fn lemma_rotation_is_reported(
    push: int,
    rot_dir: int,
    rot_released: bool,
    rot_can_push: bool,
)
    requires
        rot_dir == 1 || rot_dir == -1,
    ensures
        consumer_choice(push, rot_dir, rot_released, rot_can_push) == (if push == 1 {
            if rot_dir == 1 {
                ConsumerCode::ScanNextTrack
            } else {
                ConsumerCode::ScanPreviousTrack
            }
        } else {
            if rot_dir == 1 {
                ConsumerCode::VolumeIncrement
            } else {
                ConsumerCode::VolumeDecrement
            }
        }),
{
}

/// While the button is held, turning the encoder never changes the volume
/// and never toggles play/pause: it selects a track, in the direction of
/// the rotation.
pub proof fn lemma_held_rotation_scans(
    push: int,
    rot_dir: int,
    rot_released: bool,
    rot_can_push: bool,
)
    requires
        push == 1,
    ensures
        consumer_choice(push, rot_dir, rot_released, rot_can_push) == (if rot_dir == 1 {
            ConsumerCode::ScanNextTrack
        } else if rot_dir == -1 {
            ConsumerCode::ScanPreviousTrack
        } else {
            ConsumerCode::Unassigned
        }),
{
}

/// With no rotation in the period and no finished push, nothing is
/// reported.
pub proof fn lemma_idle_is_unassigned(
    push: int,
    rot_dir: int,
    rot_released: bool,
    rot_can_push: bool,
)
    requires
        rot_dir != 1 && rot_dir != -1,
        !(push == 0 && rot_released && rot_can_push),
    ensures
        consumer_choice(push, rot_dir, rot_released, rot_can_push) == ConsumerCode::Unassigned,
{
}

/// A consumer report: up to four controls operated at once.
#[derive(Clone, Copy, Debug)]
pub struct ConsumerReport {
    pub codes: [ConsumerCode; 4],
}

impl ConsumerReport {
    /// The report that carries `code` alone.
    pub open spec fn single(code: ConsumerCode) -> ConsumerReport {
        ConsumerReport {
            codes: [
                code,
                ConsumerCode::Unassigned,
                ConsumerCode::Unassigned,
                ConsumerCode::Unassigned,
            ],
        }
    }

    /// The report that operates no control.
    pub open spec fn blank() -> ConsumerReport {
        ConsumerReport::single(ConsumerCode::Unassigned)
    }

    /// Builds the report that carries `code` alone.
    pub fn from_code(code: ConsumerCode) -> (report: ConsumerReport)
        ensures
            report == ConsumerReport::single(code),
    {
        ConsumerReport {
            codes: [
                code,
                ConsumerCode::Unassigned,
                ConsumerCode::Unassigned,
                ConsumerCode::Unassigned,
            ],
        }
    }

    /// Builds the report that operates no control.
    pub fn empty() -> (report: ConsumerReport)
        ensures
            report == ConsumerReport::blank(),
    {
        ConsumerReport::from_code(ConsumerCode::Unassigned)
    }

    /// Whether two reports carry the same codes in the same slots.
    pub fn same_as(&self, other: &ConsumerReport) -> (same: bool)
        ensures
            same == (*self == *other),
    {
        let mut i: usize = 0;
        while i < 4
            invariant
                i <= 4,
                forall|j: int| 0 <= j < i ==> self.codes[j] == other.codes[j],
            decreases 4 - i,
        {
            if self.codes[i] != other.codes[i] {
                return false;
            }
            i += 1;
        }
        assert(self.codes =~= other.codes);
        true
    }
}

/// The sending side of the consumer reports: remembers the last report
/// that the transport accepted, so that an unchanged report is not sent
/// again.
#[derive(Clone, Copy, Debug)]
pub struct ConsumerChannel {
    /// The last report that the transport accepted.
    pub last: ConsumerReport,
}

impl ConsumerChannel {
    /// The channel after the transport answered `outcome` to `report`.
    pub open spec fn recorded(self, report: ConsumerReport, outcome: TransportOutcome)
        -> ConsumerChannel {
        if outcome == TransportOutcome::Accepted {
            ConsumerChannel { last: report }
        } else {
            self
        }
    }

    /// Whether `report` has to be handed to the transport: it differs from
    /// the last one that was accepted.
    pub open spec fn wants(self, report: ConsumerReport) -> bool {
        report != self.last
    }

    /// A channel on which nothing was sent yet: the host is taken to hold
    /// the blank report.
    pub fn new() -> (channel: ConsumerChannel)
        ensures
            channel.last == ConsumerReport::blank(),
    {
        ConsumerChannel { last: ConsumerReport::empty() }
    }

    /// Whether `report` has to be handed to the transport.
    pub fn needs_sending(&self, report: &ConsumerReport) -> (send: bool)
        ensures
            send == self.wants(*report),
    {
        !report.same_as(&self.last)
    }

    /// Takes note of the transport's answer to `report`. Only an accepted
    /// report becomes the last one: a busy transport leaves the channel as
    /// it was, and the report is offered again in the next period.
    pub fn record(&mut self, report: ConsumerReport, outcome: TransportOutcome)
        ensures
            *final(self) == old(self).recorded(report, outcome),
    {
        if outcome == TransportOutcome::Accepted {
            self.last = report;
        }
    }
}

/// Once the transport has accepted a report, offering the same report
/// again sends nothing. Any other answer leaves the channel as it was, so
/// that a report which met a busy transport is offered again.
pub proof fn lemma_accepted_report_is_not_repeated(
    channel: ConsumerChannel,
    report: ConsumerReport,
    outcome: TransportOutcome,
)
    ensures
        !channel.recorded(report, TransportOutcome::Accepted).wants(report),
        outcome != TransportOutcome::Accepted ==> channel.recorded(report, outcome) == channel,
{
}

} // verus!
