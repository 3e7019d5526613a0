//! What the display context decides: which status it has been told, and
//! where its two animations stand.
//!
//! While caps lock is off the display shows a ball that bounces between
//! the edges of the screen. While caps lock is on it shows an arrow that
//! hovers up and down. Drawing is left to the firmware binary; the
//! positions come from here.
use vstd::prelude::*;
use crate::signal::Signal;

verus! {

/// What the display has been told by the keyboard loop.
#[derive(Clone, Copy, Debug, PartialEq, Eq, Structural)]
pub struct Panel {
    /// The display is lit.
    pub lit: bool,
    /// Caps lock is on.
    pub caps_on: bool,
}

impl Panel {
    /// The panel at start: lit, and caps lock off.
    pub open spec fn at_start() -> Panel {
        Panel { lit: true, caps_on: false }
    }

    /// The panel after it was told `signal`. A signal sets a level, so
    /// hearing it twice is the same as hearing it once.
    pub open spec fn told(self, signal: Signal) -> Panel {
        match signal {
            Signal::DisplayOn => Panel { lit: true, ..self },
            Signal::DisplayOff => Panel { lit: false, ..self },
            Signal::CapsOn => Panel { caps_on: true, ..self },
            Signal::CapsOff => Panel { caps_on: false, ..self },
        }
    }

    /// The panel after it read `word` from the link. A word that carries
    /// no signal changes nothing.
    pub open spec fn read(self, word: u32) -> Panel {
        match Signal::of_word(word) {
            Some(signal) => self.told(signal),
            None => self,
        }
    }

    /// The panel at start.
    pub fn new() -> (panel: Panel)
        ensures
            panel == Panel::at_start(),
    {
        Panel { lit: true, caps_on: false }
    }

    /// Takes in a word that was read from the link, and returns the
    /// signal it carried, for the display to act on.
    pub fn receive(&mut self, word: u32) -> (signal: Option<Signal>)
        ensures
            signal == Signal::of_word(word),
            *final(self) == old(self).read(word),
    {
        let signal = Signal::from_word(word);
        match signal {
            Some(Signal::DisplayOn) => {
                self.lit = true;
            },
            Some(Signal::DisplayOff) => {
                self.lit = false;
            },
            Some(Signal::CapsOn) => {
                self.caps_on = true;
            },
            Some(Signal::CapsOff) => {
                self.caps_on = false;
            },
            None => {},
        }
        signal
    }
}

/// The last word wins: whatever the panel was told before, after a signal
/// it shows what that signal says, and a repeated signal changes nothing
/// more.
pub proof fn lemma_signals_set_levels(panel: Panel, signal: Signal)
    ensures
        panel.told(signal).told(signal) == panel.told(signal),
        signal == Signal::DisplayOn ==> panel.told(signal).lit,
        signal == Signal::DisplayOff ==> !panel.told(signal).lit,
        signal == Signal::CapsOn ==> panel.told(signal).caps_on,
        signal == Signal::CapsOff ==> !panel.told(signal).caps_on,
{
}

/// The largest coordinate that an animation works with.
pub const MAX_EXTENT: i32 = 0x4000_0000;

/// Radius of the bouncing ball, in pixels.
pub const BALL_RADIUS: i32 = 5;

/// How far up the hovering arrow goes, in pixels.
pub const ARROW_REACH: i32 = 9;

/// A point that moves along one axis, one step per frame, and turns round
/// at either end of its range, as the contracts see it.
pub struct BounceView {
    pub position: int,
    pub velocity: int,
    pub low: int,
    pub high: int,
}

impl BounceView {
    /// The point lies within its range, moves by one step per frame, and
    /// at an end of the range it is on its way there, about to turn.
    pub open spec fn wf(self) -> bool {
        &&& -MAX_EXTENT <= self.low < self.high <= MAX_EXTENT
        &&& self.low <= self.position <= self.high
        &&& (self.velocity == 1 || self.velocity == -1)
        &&& self.position == self.low ==> self.velocity == -1
        &&& self.position == self.high ==> self.velocity == 1
    }

    /// Whether the point turns round in this frame: it has reached an end
    /// of its range.
    pub open spec fn turns(self) -> bool {
        self.position <= self.low || self.position >= self.high
    }

    /// The point one frame later: it turns round if it has to, then moves
    /// one step.
    pub open spec fn advanced(self) -> BounceView {
        let velocity = if self.turns() {
            -self.velocity
        } else {
            self.velocity
        };
        BounceView { position: self.position + velocity, velocity, ..self }
    }
}

/// A frame keeps the point within its range.
pub proof fn lemma_bounce_stays_in_range(bounce: BounceView)
    requires
        bounce.wf(),
    ensures
        bounce.advanced().wf(),
        bounce.advanced().low == bounce.low,
        bounce.advanced().high == bounce.high,
{
}

/// One coordinate of the bouncing ball.
#[derive(Clone, Copy, Debug)]
pub struct Bounce {
    position: i32,
    velocity: i32,
    low: i32,
    high: i32,
}

impl View for Bounce {
    type V = BounceView;

    closed spec fn view(&self) -> BounceView {
        BounceView {
            position: self.position as int,
            velocity: self.velocity as int,
            low: self.low as int,
            high: self.high as int,
        }
    }
}

impl Bounce {
    #[verifier::type_invariant]
    spec fn inv(self) -> bool {
        self@.wf()
    }

    /// The range of the centre of a ball of `radius` on a screen that is
    /// `extent` wide: the ball turns round when it comes within one pixel
    /// of an edge.
    pub open spec fn range_of(extent: int, radius: int) -> (int, int) {
        (radius, extent - radius - 1)
    }

    /// Whether a ball of `radius` has room to move on a screen that is
    /// `extent` wide, starting from the middle.
    pub open spec fn has_room(extent: int, radius: int) -> bool {
        &&& 0 <= radius
        &&& extent <= MAX_EXTENT
        &&& radius < extent / 2 < extent - radius - 1
    }

    /// One coordinate of a ball of `radius` that starts in the middle of
    /// a screen `extent` wide and moves forward (`forward`) or backward.
    /// `None` where the screen has no room for the ball.
    pub fn across(extent: i32, radius: i32, forward: bool) -> (bounce: Option<Bounce>)
        ensures
            bounce is Some <==> Bounce::has_room(extent as int, radius as int),
            bounce matches Some(b) ==> b@ == (BounceView {
                position: extent as int / 2,
                velocity: if forward {
                    1int
                } else {
                    -1int
                },
                low: radius as int,
                high: extent - radius - 1,
            }),
    {
        if radius < 0 || extent > MAX_EXTENT || extent < 0 {
            return None;
        }
        let middle = extent / 2;
        if radius < middle && middle < extent - radius - 1 {
            Some(
                Bounce {
                    position: middle,
                    velocity: if forward {
                        1
                    } else {
                        -1
                    },
                    low: radius,
                    high: extent - radius - 1,
                },
            )
        } else {
            None
        }
    }

    /// Where the point is.
    pub fn position(&self) -> (position: i32)
        ensures
            position == self@.position,
            self@.low <= position <= self@.high,
    {
        proof {
            use_type_invariant(self);
        }
        self.position
    }

    /// Moves the point by one frame.
    pub fn advance(&mut self)
        ensures
            final(self)@ == old(self)@.advanced(),
    {
        proof {
            use_type_invariant(&*self);
        }
        let velocity = if self.position <= self.low || self.position >= self.high {
            -self.velocity
        } else {
            self.velocity
        };
        let position = self.position + velocity;
        *self = Bounce { position, velocity, low: self.low, high: self.high };
    }
}

/// The hovering arrow as the contracts see it: how far it has travelled
/// from its place of rest (upwards is negative), the step it takes per
/// frame, and how far up it may go.
pub struct HoverView {
    pub travelled: int,
    pub velocity: int,
    pub reach: int,
}

impl HoverView {
    /// The arrow is no further than one step beyond either end of its
    /// way, and where it is beyond it has turned round already.
    pub open spec fn wf(self) -> bool {
        &&& 0 <= self.reach <= MAX_EXTENT
        &&& -self.reach - 1 <= self.travelled <= 1
        &&& (self.velocity == 1 || self.velocity == -1)
        &&& self.travelled == 1 ==> self.velocity == -1
        &&& self.travelled == -self.reach - 1 ==> self.velocity == 1
    }

    /// The arrow one frame later: it travels one step, and turns round
    /// where that took it below its place of rest or beyond its reach.
    pub open spec fn advanced(self) -> HoverView {
        let travelled = self.travelled + self.velocity;
        HoverView {
            travelled,
            velocity: if travelled > 0 || travelled < -self.reach {
                -self.velocity
            } else {
                self.velocity
            },
            ..self
        }
    }
}

/// A frame keeps the arrow on its way.
pub proof fn lemma_hover_stays_in_reach(hover: HoverView)
    requires
        hover.wf(),
    ensures
        hover.advanced().wf(),
        hover.advanced().reach == hover.reach,
{
}

/// The arrow that hovers while caps lock is on.
#[derive(Clone, Copy, Debug)]
pub struct Hover {
    travelled: i32,
    velocity: i32,
    reach: i32,
}

impl View for Hover {
    type V = HoverView;

    closed spec fn view(&self) -> HoverView {
        HoverView {
            travelled: self.travelled as int,
            velocity: self.velocity as int,
            reach: self.reach as int,
        }
    }
}

impl Hover {
    #[verifier::type_invariant]
    spec fn inv(self) -> bool {
        self@.wf()
    }

    /// An arrow at its place of rest, about to move up, that may go
    /// `reach` steps up. `None` where `reach` is negative or beyond what
    /// an animation works with.
    pub fn new(reach: i32) -> (hover: Option<Hover>)
        ensures
            hover is Some <==> 0 <= reach <= MAX_EXTENT,
            hover matches Some(h) ==> h@ == (HoverView {
                travelled: 0,
                velocity: -1,
                reach: reach as int,
            }),
    {
        if 0 <= reach && reach <= MAX_EXTENT {
            Some(Hover { travelled: 0, velocity: -1, reach })
        } else {
            None
        }
    }

    /// How far the arrow has travelled from its place of rest.
    pub fn travelled(&self) -> (travelled: i32)
        ensures
            travelled == self@.travelled,
            -self@.reach - 1 <= travelled <= 1,
    {
        proof {
            use_type_invariant(self);
        }
        self.travelled
    }

    /// Moves the arrow by one frame and returns the step by which the
    /// drawing is to be shifted: 1 or -1.
    pub fn advance(&mut self) -> (step: i32)
        ensures
            final(self)@ == old(self)@.advanced(),
            step == final(self)@.velocity,
            step == 1 || step == -1,
    {
        proof {
            use_type_invariant(&*self);
        }
        let travelled = self.travelled + self.velocity;
        let velocity = if travelled > 0 || travelled < -self.reach {
            -self.velocity
        } else {
            self.velocity
        };
        *self = Hover { travelled, velocity, reach: self.reach };
        velocity
    }
}

} // verus!
