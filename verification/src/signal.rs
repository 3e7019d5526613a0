//! The one-way status signal from the keyboard loop to the display.
//!
//! The display runs in a context of its own and learns two things from
//! the keyboard loop: whether the display is to be lit, and whether caps
//! lock is on. Each is a level, not an event: a signal says what holds
//! from now on, and is sent only when that changes.
use vstd::prelude::*;

verus! {

/// The word that says the display is to be lit.
pub const DISPLAY_ON: u32 = 0xDE;

/// The word that says the display is to go dark.
pub const DISPLAY_OFF: u32 = 0xDD;

/// The word that says caps lock is on.
pub const CAPS_ON: u32 = 0xCC;

/// The word that says caps lock is off.
pub const CAPS_OFF: u32 = 0xCD;

/// A status signal.
#[derive(Clone, Copy, Debug, PartialEq, Eq, Structural)]
pub enum Signal {
    DisplayOn,
    DisplayOff,
    CapsOn,
    CapsOff,
}

impl Signal {
    /// The word that carries the signal.
    pub open spec fn word(self) -> u32 {
        match self {
            Signal::DisplayOn => DISPLAY_ON,
            Signal::DisplayOff => DISPLAY_OFF,
            Signal::CapsOn => CAPS_ON,
            Signal::CapsOff => CAPS_OFF,
        }
    }

    /// The signal that a word carries, if it carries one.
    pub open spec fn of_word(word: u32) -> Option<Signal> {
        if word == DISPLAY_ON {
            Some(Signal::DisplayOn)
        } else if word == DISPLAY_OFF {
            Some(Signal::DisplayOff)
        } else if word == CAPS_ON {
            Some(Signal::CapsOn)
        } else if word == CAPS_OFF {
            Some(Signal::CapsOff)
        } else {
            None
        }
    }

    /// Encodes the signal as the word that is written to the display.
    pub fn to_word(self) -> (word: u32)
        ensures
            word == self.word(),
            Signal::of_word(word) == Some(self),
    {
        match self {
            Signal::DisplayOn => DISPLAY_ON,
            Signal::DisplayOff => DISPLAY_OFF,
            Signal::CapsOn => CAPS_ON,
            Signal::CapsOff => CAPS_OFF,
        }
    }

    /// Decodes a word that the display read. A word that carries no
    /// signal gives `None`.
    pub fn from_word(word: u32) -> (signal: Option<Signal>)
        ensures
            signal == Signal::of_word(word),
            signal matches Some(s) ==> s.word() == word,
            signal is None <==> (word != DISPLAY_ON && word != DISPLAY_OFF && word != CAPS_ON
                && word != CAPS_OFF),
    {
        if word == DISPLAY_ON {
            Some(Signal::DisplayOn)
        } else if word == DISPLAY_OFF {
            Some(Signal::DisplayOff)
        } else if word == CAPS_ON {
            Some(Signal::CapsOn)
        } else if word == CAPS_OFF {
            Some(Signal::CapsOff)
        } else {
            None
        }
    }
}

/// Every signal survives the way through its word, and no two signals
/// share a word.
pub proof fn lemma_words_carry_signals(a: Signal, b: Signal)
    ensures
        Signal::of_word(a.word()) == Some(a),
        a.word() == b.word() ==> a == b,
{
}

/// What the keyboard loop has told the display, and what it would like
/// the display to know.
#[derive(Clone, Copy, Debug, PartialEq, Eq, Structural)]
pub struct StatusLink {
    /// The display is wanted lit: the keyboard was used since the display
    /// was last told to go dark.
    pub display_wanted: bool,
    /// The display was told to go dark and has not been told to light up
    /// since.
    pub display_dark: bool,
    /// Caps lock is on, as the host last said.
    pub caps_on: bool,
    /// The display was told that caps lock is on and has not been told
    /// otherwise since.
    pub caps_shown: bool,
}

impl StatusLink {
    /// The link at start: the display is lit and shows no caps lock.
    pub open spec fn at_start() -> StatusLink {
        StatusLink { display_wanted: true, display_dark: false, caps_on: false, caps_shown: false }
    }

    /// Whether the inactivity timer has to be asked: only a lit display
    /// in front of an idle keyboard can time out.
    pub open spec fn awaits_timeout(self, active: bool) -> bool {
        !self.display_dark && !active
    }

    /// Whether the display is told to go dark now: it is lit, the
    /// keyboard is idle, the inactivity timer has run out and the link
    /// can take a word.
    pub open spec fn goes_dark(self, active: bool, timed_out: bool, ready: bool) -> bool {
        self.awaits_timeout(active) && timed_out && ready
    }

    /// Whether the display is told to light up now: it is dark, the
    /// keyboard was used and the link can take a word.
    pub open spec fn lights_up(self, active: bool, timed_out: bool, ready: bool) -> bool {
        !self.goes_dark(active, timed_out, ready) && (self.display_wanted || active)
            && self.display_dark && ready
    }

    /// The signal about the display that is due, if any.
    pub open spec fn display_signal(self, active: bool, timed_out: bool, ready: bool) -> Option<
        Signal,
    > {
        if self.goes_dark(active, timed_out, ready) {
            Some(Signal::DisplayOff)
        } else if self.lights_up(active, timed_out, ready) {
            Some(Signal::DisplayOn)
        } else {
            None
        }
    }

    /// The link after the display was looked after.
    pub open spec fn display_checked(self, active: bool, timed_out: bool, ready: bool)
        -> StatusLink {
        if self.goes_dark(active, timed_out, ready) {
            StatusLink { display_wanted: false, display_dark: true, ..self }
        } else if self.lights_up(active, timed_out, ready) {
            StatusLink { display_wanted: true, display_dark: false, ..self }
        } else {
            StatusLink { display_wanted: self.display_wanted || active, ..self }
        }
    }

    /// The signal about caps lock that is due, if any: the display is
    /// told when it shows something else than the host said, and the
    /// link can take a word.
    pub open spec fn caps_signal(self, ready: bool) -> Option<Signal> {
        if !self.caps_shown && self.caps_on && ready {
            Some(Signal::CapsOn)
        } else if !self.caps_on && self.caps_shown && ready {
            Some(Signal::CapsOff)
        } else {
            None
        }
    }

    /// The link after caps lock was looked after.
    pub open spec fn caps_checked(self, ready: bool) -> StatusLink {
        if self.caps_signal(ready) is Some {
            StatusLink { caps_shown: self.caps_on, ..self }
        } else {
            self
        }
    }

    /// The link after the host said whether caps lock is on.
    pub open spec fn host_said(self, caps_lock: bool) -> StatusLink {
        StatusLink { caps_on: caps_lock, ..self }
    }

    /// The link at start.
    pub fn new() -> (link: StatusLink)
        ensures
            link == StatusLink::at_start(),
    {
        StatusLink { display_wanted: true, display_dark: false, caps_on: false, caps_shown: false }
    }

    /// Whether the inactivity timer has to be asked in this pass, the
    /// keyboard being `active` or not.
    pub fn wants_timeout(&self, active: bool) -> (wanted: bool)
        ensures
            wanted == self.awaits_timeout(active),
    {
        !self.display_dark && !active
    }

    /// Whether the display has to hear about caps lock.
    pub fn caps_pending(&self) -> (pending: bool)
        ensures
            pending == (self.caps_on != self.caps_shown),
            !pending ==> forall|ready: bool| self.caps_signal(ready) is None,
    {
        self.caps_on != self.caps_shown
    }

    /// Looks after the display. `active` says whether the keyboard is in
    /// use, `timed_out` whether the inactivity timer has run out, `ready`
    /// whether the link can take a word. Returns the signal to send.
    pub fn check_display(&mut self, active: bool, timed_out: bool, ready: bool) -> (signal: Option<
        Signal,
    >)
        ensures
            signal == old(self).display_signal(active, timed_out, ready),
            *final(self) == old(self).display_checked(active, timed_out, ready),
    {
        if active {
            self.display_wanted = true;
        }
        if !self.display_dark && !active && timed_out && ready {
            self.display_wanted = false;
            self.display_dark = true;
            Some(Signal::DisplayOff)
        } else if self.display_wanted && self.display_dark && ready {
            self.display_dark = false;
            Some(Signal::DisplayOn)
        } else {
            None
        }
    }

    /// Looks after caps lock. `ready` says whether the link can take a
    /// word. Returns the signal to send.
    pub fn check_caps(&mut self, ready: bool) -> (signal: Option<Signal>)
        ensures
            signal == old(self).caps_signal(ready),
            *final(self) == old(self).caps_checked(ready),
    {
        if !self.caps_shown && self.caps_on && ready {
            self.caps_shown = true;
            Some(Signal::CapsOn)
        } else if !self.caps_on && self.caps_shown && ready {
            self.caps_shown = false;
            Some(Signal::CapsOff)
        } else {
            None
        }
    }

    /// Takes note of what the host said about caps lock.
    pub fn set_caps_lock(&mut self, caps_lock: bool)
        ensures
            *final(self) == old(self).host_said(caps_lock),
    {
        self.caps_on = caps_lock;
    }
}

/// The display is told only what is news to it: to go dark while it is
/// lit, to light up while it is dark, and about caps lock when it shows
/// the opposite. Once told, it is not told the same again.
pub proof fn lemma_signals_are_news(link: StatusLink, active: bool, timed_out: bool, ready: bool)
    ensures
        link.display_signal(active, timed_out, ready) == Some(Signal::DisplayOff)
            ==> !link.display_dark && link.display_checked(active, timed_out, ready).display_dark,
        link.display_signal(active, timed_out, ready) == Some(Signal::DisplayOn)
            ==> link.display_dark && !link.display_checked(active, timed_out, ready).display_dark,
        link.display_signal(active, timed_out, ready) is None ==> link.display_checked(
            active,
            timed_out,
            ready,
        ).display_dark == link.display_dark,
        link.caps_signal(ready) == Some(Signal::CapsOn) ==> !link.caps_shown && link.caps_checked(
            ready,
        ).caps_shown,
        link.caps_signal(ready) == Some(Signal::CapsOff) ==> link.caps_shown && !link.caps_checked(
            ready,
        ).caps_shown,
        link.caps_checked(ready).caps_signal(ready) is None,
        !ready ==> link.display_signal(active, timed_out, ready) is None && link.caps_signal(ready)
            is None,
{
}

/// A keyboard in use never sends the display dark, and lights it up as
/// soon as the link can take a word.
pub proof fn lemma_activity_lights_display(link: StatusLink, timed_out: bool, ready: bool)
    ensures
        link.display_signal(true, timed_out, ready) != Some(Signal::DisplayOff),
        link.display_dark && ready ==> link.display_signal(true, timed_out, ready) == Some(
            Signal::DisplayOn,
        ),
        link.display_checked(true, timed_out, ready).display_wanted,
{
}

} // verus!
