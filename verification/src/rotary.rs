//! The rotary encoder: quadrature decoding and the rule that keeps a push
//! from counting as play/pause once the encoder was turned.
//!
//! The decoder works on logical levels: a phase is active or it is not. A
//! rotation is seen at the moment phase A becomes active: with phase B
//! inactive the encoder turns clockwise, with phase B active it turns
//! counter-clockwise. Which electrical level of each line means active
//! is laid down in the configuration of the board.
use vstd::prelude::*;
use crate::consumer::{consumer_choice, ConsumerCode};

verus! {

/// The encoder turned clockwise.
pub const CLOCKWISE: i32 = 1;

/// The encoder turned counter-clockwise.
pub const COUNTER_CLOCKWISE: i32 = -1;

/// The encoder did not turn.
pub const NO_ROTATION: i32 = 0;

/// Where a gesture on the encoder stands within a report period.
#[derive(Clone, Copy, Debug, PartialEq, Eq, Structural)]
pub enum Gesture {
    /// The button was not seen pressed.
    Idle,
    /// The button was seen pressed and the encoder has not turned.
    Pushed,
    /// The button was seen pressed and the encoder has turned: the push
    /// no longer counts as play/pause.
    PushedAndRotated,
}

/// What the encoder meets between two reports.
pub enum Happening {
    /// A sample of the two phases.
    Sampled { a: bool, b: bool },
    /// A scan of the matrix that found the button pressed or not.
    Scanned { pressed: bool },
}

/// The state of the rotary encoder.
#[derive(Clone, Copy, Debug, PartialEq, Eq, Structural)]
pub struct Rotary {
    /// Phase A at the last sample.
    pub a_last: bool,
    /// Phase B at the last sample.
    pub b_last: bool,
    /// The button was seen pressed in this report period.
    pub was_pressed: bool,
    /// A push may count as play/pause: the encoder has not turned since
    /// the button was last seen released by a report.
    pub can_push: bool,
    /// The rotation seen in this report period.
    pub dir: i32,
}

impl Rotary {
    /// The direction is one of the three, and the push only counts while
    /// no rotation is pending.
    pub open spec fn wf(self) -> bool {
        &&& (self.dir == CLOCKWISE || self.dir == COUNTER_CLOCKWISE || self.dir == NO_ROTATION)
        &&& self.can_push ==> self.dir == NO_ROTATION
    }

    /// The encoder at rest, with the phases as they are read at start.
    pub open spec fn at_rest(a: bool, b: bool) -> Rotary {
        Rotary { a_last: a, b_last: b, was_pressed: false, can_push: true, dir: NO_ROTATION }
    }

    /// The rotation that a sample of the two phases shows, if any.
    ///
    /// Only phase A becoming active counts, and only while phase B has
    /// kept its level: where both phases changed between two samples a
    /// step was missed, and no rotation is reported.
    pub open spec fn rotation(self, a: bool, b: bool) -> int {
        if a != self.a_last && a && b == self.b_last {
            if b {
                COUNTER_CLOCKWISE as int
            } else {
                CLOCKWISE as int
            }
        } else {
            NO_ROTATION as int
        }
    }

    /// The state after a sample of the two phases. A rotation replaces
    /// the pending direction and spoils the push.
    pub open spec fn sampled(self, a: bool, b: bool) -> Rotary {
        let turned = self.rotation(a, b);
        Rotary {
            a_last: a,
            b_last: b,
            was_pressed: self.was_pressed,
            can_push: self.can_push && turned == NO_ROTATION,
            dir: if turned == NO_ROTATION {
                self.dir
            } else {
                turned as i32
            },
        }
    }

    /// The state after the matrix was scanned and found the button
    /// `pressed` or not. A press is remembered until the next report.
    pub open spec fn latched(self, pressed: bool) -> Rotary {
        Rotary { was_pressed: self.was_pressed || pressed, ..self }
    }

    /// The state after a consumer report was computed while the button
    /// was `pressed` or not. The press and the rotation are forgotten;
    /// a push counts again once the button is seen released.
    pub open spec fn reported(self, pressed: bool) -> Rotary {
        Rotary {
            was_pressed: false,
            can_push: self.can_push || !pressed,
            dir: NO_ROTATION,
            ..self
        }
    }

    /// The state after one happening.
    pub open spec fn met(self, happening: Happening) -> Rotary {
        match happening {
            Happening::Sampled { a, b } => self.sampled(a, b),
            Happening::Scanned { pressed } => self.latched(pressed),
        }
    }

    /// The state after a series of happenings, the first of them first.
    pub open spec fn lived(self, happenings: Seq<Happening>) -> Rotary
        decreases happenings.len(),
    {
        if happenings.len() == 0 {
            self
        } else {
            self.lived(happenings.drop_last()).met(happenings.last())
        }
    }

    /// Where the gesture stands.
    pub open spec fn gesture_of(self) -> Gesture {
        if !self.was_pressed {
            Gesture::Idle
        } else if self.can_push {
            Gesture::Pushed
        } else {
            Gesture::PushedAndRotated
        }
    }

    /// The consumer code of this report period, the button being `push`
    /// (1 pressed, 0 released).
    pub open spec fn choice(self, push: int) -> ConsumerCode {
        consumer_choice(push, self.dir as int, self.was_pressed, self.can_push)
    }

    /// The encoder at rest. `a` and `b` are the phases as read at start.
    pub fn new(a: bool, b: bool) -> (rotary: Rotary)
        ensures
            rotary == Rotary::at_rest(a, b),
            rotary.wf(),
    {
        Rotary { a_last: a, b_last: b, was_pressed: false, can_push: true, dir: NO_ROTATION }
    }

    /// Takes a sample of the two phases.
    pub fn sample(&mut self, a: bool, b: bool)
        ensures
            *final(self) == old(self).sampled(a, b),
            old(self).wf() ==> final(self).wf(),
    {
        if a != self.a_last && a && b == self.b_last {
            self.dir = if b {
                COUNTER_CLOCKWISE
            } else {
                CLOCKWISE
            };
            self.can_push = false;
        }
        self.a_last = a;
        self.b_last = b;
    }

    /// Takes note of the button after a scan of the matrix.
    pub fn note_push(&mut self, pressed: bool)
        ensures
            *final(self) == old(self).latched(pressed),
            old(self).wf() ==> final(self).wf(),
    {
        if pressed && !self.was_pressed {
            self.was_pressed = true;
        }
    }

    /// Ends a report period, the button being `pressed` or not at that
    /// moment.
    pub fn finish_report(&mut self, pressed: bool)
        ensures
            *final(self) == old(self).reported(pressed),
            final(self).wf(),
    {
        self.was_pressed = false;
        self.dir = NO_ROTATION;
        if !pressed {
            self.can_push = true;
        }
    }

    /// Where the gesture stands.
    pub fn gesture(&self) -> (gesture: Gesture)
        ensures
            gesture == self.gesture_of(),
    {
        if !self.was_pressed {
            Gesture::Idle
        } else if self.can_push {
            Gesture::Pushed
        } else {
            Gesture::PushedAndRotated
        }
    }
}

/// A push is spoiled by a rotation and by nothing else, and it counts
/// again after a report that sees the button released and after nothing
/// else.
pub proof fn lemma_push_counts(rotary: Rotary, a: bool, b: bool, pressed: bool)
    ensures
        rotary.sampled(a, b).can_push == (rotary.can_push && rotary.rotation(a, b)
            == NO_ROTATION),
        rotary.latched(pressed).can_push == rotary.can_push,
        rotary.reported(pressed).can_push == (rotary.can_push || !pressed),
{
}

/// A spoiled push never says play/pause, whatever the button does.
pub proof fn lemma_spoiled_push_never_plays(rotary: Rotary, push: int)
    requires
        !rotary.can_push,
    ensures
        rotary.choice(push) != ConsumerCode::PlayPause,
{
}

/// A spoiled push stays spoiled for the rest of the report period:
/// whatever the encoder and the button do, no sample and no scan makes
/// the push count again, and the report at the end of the period does not
/// say play/pause.
pub proof fn lemma_spoiled_push_stays_spoiled(
    rotary: Rotary,
    happenings: Seq<Happening>,
    push: int,
)
    requires
        !rotary.can_push,
    ensures
        !rotary.lived(happenings).can_push,
        rotary.lived(happenings).choice(push) != ConsumerCode::PlayPause,
    decreases happenings.len(),
{
    if happenings.len() > 0 {
        lemma_spoiled_push_stays_spoiled(rotary, happenings.drop_last(), push);
    }
}

/// A rotation spoils the push for the rest of the report period,
/// whichever way the encoder turned and whatever happens after.
pub proof fn lemma_rotation_spoils_the_period(
    rotary: Rotary,
    a: bool,
    b: bool,
    happenings: Seq<Happening>,
    push: int,
)
    requires
        rotary.rotation(a, b) != NO_ROTATION,
    ensures
        rotary.sampled(a, b).lived(happenings).choice(push) != ConsumerCode::PlayPause,
{
    lemma_spoiled_push_stays_spoiled(rotary.sampled(a, b), happenings, push);
}

/// Without a press there is no play/pause: while no scan finds the button
/// pressed, the report at the end of the period does not say play/pause.
pub proof fn lemma_no_press_no_play(rotary: Rotary, happenings: Seq<Happening>, push: int)
    requires
        !rotary.was_pressed,
        forall|i: int|
            0 <= i < happenings.len() ==> #[trigger] happenings[i] != (Happening::Scanned {
                pressed: true,
            }),
    ensures
        !rotary.lived(happenings).was_pressed,
        rotary.lived(happenings).choice(push) != ConsumerCode::PlayPause,
    decreases happenings.len(),
{
    if happenings.len() > 0 {
        let front = happenings.drop_last();
        lemma_no_press_no_play(rotary, front, push);
    }
}

/// The gesture decides about play/pause: a report says play/pause exactly
/// when the button is up and the gesture is a push that no rotation
/// spoiled.
pub proof fn lemma_play_pause_ends_a_push(rotary: Rotary, push: int)
    requires
        rotary.wf(),
    ensures
        rotary.choice(push) == ConsumerCode::PlayPause <==> (push == 0 && rotary.gesture_of()
            == Gesture::Pushed),
{
}

/// The gesture moves as the encoder is operated: a press takes it from
/// idle to pushed, a rotation takes it from pushed to pushed-and-rotated,
/// and every report takes it back to idle.
pub proof fn lemma_gesture_moves(rotary: Rotary, a: bool, b: bool, pressed: bool)
    ensures
        rotary.gesture_of() == Gesture::Idle && rotary.can_push ==> rotary.latched(
            true,
        ).gesture_of() == Gesture::Pushed,
        rotary.gesture_of() == Gesture::Pushed && rotary.rotation(a, b) != NO_ROTATION
            ==> rotary.sampled(a, b).gesture_of() == Gesture::PushedAndRotated,
        rotary.gesture_of() == Gesture::PushedAndRotated ==> rotary.sampled(a, b).gesture_of()
            == Gesture::PushedAndRotated,
        rotary.reported(pressed).gesture_of() == Gesture::Idle,
        rotary.reported(false).can_push,
{
}

/// A clockwise rotation spoils the push that follows it in the same
/// report period. When the button is then pressed and let go, the report
/// does not say play/pause: it carries the rotation, as a volume step
/// once the button is up and as a track step while it is still held.
pub proof fn lemma_rotation_spoils_push(rotary: Rotary, a: bool, b: bool)
    requires
        rotary.rotation(a, b) == CLOCKWISE,
    ensures
        rotary.sampled(a, b).latched(true).choice(0) == ConsumerCode::VolumeIncrement,
        rotary.sampled(a, b).latched(true).choice(1) == ConsumerCode::ScanNextTrack,
        rotary.sampled(a, b).choice(0) == ConsumerCode::VolumeIncrement,
{
}

/// The same for a counter-clockwise rotation.
pub proof fn lemma_counter_rotation_spoils_push(rotary: Rotary, a: bool, b: bool)
    requires
        rotary.rotation(a, b) == COUNTER_CLOCKWISE,
    ensures
        rotary.sampled(a, b).latched(true).choice(0) == ConsumerCode::VolumeDecrement,
        rotary.sampled(a, b).latched(true).choice(1) == ConsumerCode::ScanPreviousTrack,
        rotary.sampled(a, b).choice(0) == ConsumerCode::VolumeDecrement,
{
}

/// A push alone says play/pause once. With no rotation to spoil it,
/// a press followed by a release makes the next report say play/pause,
/// and the report after that says nothing.
pub proof fn lemma_push_alone_plays_once(rotary: Rotary)
    requires
        rotary.wf(),
        rotary.can_push,
    ensures
        rotary.latched(true).choice(1) == ConsumerCode::Unassigned,
        rotary.latched(true).choice(0) == ConsumerCode::PlayPause,
        rotary.latched(true).reported(false).choice(0) == ConsumerCode::Unassigned,
        rotary.latched(true).reported(false).latched(false).choice(0) == ConsumerCode::Unassigned,
{
}

} // verus!
