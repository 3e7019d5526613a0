//! The polling scheduler: what the main loop does next.
//!
//! One pass of the loop is a fixed series of small pieces of work. The
//! scheduler names the piece that is due as an [`Action`]; the firmware
//! binary performs it and reports what came of it as an [`Event`]; the
//! scheduler takes that in and names the next piece. Nothing waits: a
//! timer that has not run out is answered with "not due", and the pass
//! moves on.
//!
//! The order of a pass:
//! 1. the display is looked after, then caps lock (only with a display);
//! 2. the keyboard report, if its interval has run out;
//! 3. the maintenance tick of the transport, if its interval has run out;
//! 4. the host is polled;
//! 5. the consumer report, if its interval has run out, after which the
//!    encoder's press and rotation of that period are forgotten;
//! 6. one scan pass over the matrix;
//! 7. one sample of the encoder.
//!
//! What the scan and the sample find is reported in the pass after.
use vstd::prelude::*;
use crate::config::{Readings, COLS, FN_COL, FN_ROW, PUSH_COL, PUSH_ROW, ROWS};
use crate::consumer::{get_consumer, ConsumerChannel, ConsumerReport};
use crate::keycode::KeyCode;
use crate::keys::{layered_report, slot_code, KeyboardReport, KEY_COUNT, SLOT_COLS, SLOT_ROWS};
use crate::layer::Layer;
use crate::matrix::{KeyMatrix, MatrixView};
use crate::rotary::{Rotary, NO_ROTATION};
use crate::signal::{Signal, StatusLink};
use crate::transport::{HaltReason, PollResult, TransportOutcome, Verdict};

verus! {

/// An interval timer of the loop.
#[derive(Clone, Copy, Debug, PartialEq, Eq, Structural)]
pub enum Timer {
    /// Paces the keyboard reports.
    KeyboardReport,
    /// Paces the maintenance of the transport.
    TransportTick,
    /// Paces the consumer reports.
    ConsumerReport,
}

/// Where a pass stands: the piece of work whose outcome is awaited.
#[derive(Clone, Copy, Debug, PartialEq, Eq, Structural)]
pub enum Phase {
    /// The display is being looked after.
    Housekeeping,
    /// A signal about the display is being written.
    DisplayNotice(Signal),
    /// The link is being asked whether it can take the word about caps
    /// lock.
    CapsCheck,
    /// A signal about caps lock is being written.
    CapsNotice(Signal),
    /// The timer of the keyboard report is being asked.
    KeyboardTimer,
    /// The keyboard report is with the transport.
    KeyboardSend,
    /// The timer of the maintenance tick is being asked.
    TickTimer,
    /// The transport is doing its maintenance.
    Tick,
    /// The host is being polled.
    Poll,
    /// The timer of the consumer report is being asked.
    ConsumerTimer,
    /// The consumer report is with the transport.
    ConsumerSend,
    /// The matrix is being scanned.
    Scan,
    /// The encoder is being sampled.
    Sample,
    /// The device has stopped and stays so.
    Halted(HaltReason),
}

/// A piece of work for the firmware binary.
#[derive(Clone, Copy, Debug, PartialEq, Eq, Structural)]
pub enum Action {
    /// Start the inactivity timer of the display afresh if
    /// `restart_timer` says so; then ask it whether it has run out, if
    /// `ask_timeout` says so, and ask the link to the display whether it
    /// can take a word. Answer with [`Event::Housekeeping`].
    Housekeeping { restart_timer: bool, ask_timeout: bool },
    /// Write `signal` to the link; before that, stop the inactivity
    /// timer if `stop_timer` says so. Answer with [`Event::Done`].
    Notify { signal: Signal, stop_timer: bool },
    /// Ask the link to the display whether it can take a word. Answer
    /// with [`Event::Link`].
    AskLink,
    /// Ask the timer whether its interval has run out. Answer with
    /// [`Event::Timer`].
    AskTimer(Timer),
    /// Hand [`Scheduler::keyboard_report`] to the transport. Answer with
    /// [`Event::Transport`].
    SendKeyboard,
    /// Let the transport do its maintenance. Answer with
    /// [`Event::Transport`].
    Tick,
    /// Poll the host. Answer with [`Event::Polled`].
    Poll,
    /// Hand [`Scheduler::consumer_report`] to the transport. Answer with
    /// [`Event::Transport`].
    SendConsumer,
    /// Drive every column in turn and read the rows. Answer with
    /// [`Event::Matrix`].
    ScanMatrix,
    /// Read the two phases of the encoder. Answer with
    /// [`Event::Phases`].
    SampleEncoder,
    /// Stop the device.
    Halt(HaltReason),
}

/// What came of a piece of work.
#[derive(Clone, Copy, Debug)]
pub enum Event {
    /// The inactivity timer has run out or not (`false` where it was not
    /// asked), and the link to the display can take a word or not.
    Housekeeping { timed_out: bool, ready: bool },
    /// The work is done and has nothing to say.
    Done,
    /// The link to the display can take a word or not.
    Link { ready: bool },
    /// The interval of the timer has run out or not.
    Timer { due: bool },
    /// The transport's answer.
    Transport(TransportOutcome),
    /// What the host had to say.
    Polled(PollResult),
    /// The readings of one scan pass.
    Matrix(Readings),
    /// The two phases of the encoder.
    Phases { a: bool, b: bool },
    /// A pin could not be read or driven.
    HardwareFault,
}

/// The scheduler as the contracts see it.
pub struct SchedulerView {
    pub matrix: MatrixView,
    pub rotary: Rotary,
    pub link: StatusLink,
    pub channel: ConsumerChannel,
    pub phase: Phase,
    pub display: bool,
}

impl SchedulerView {
    /// The matrix and the encoder are well formed.
    pub open spec fn wf(self) -> bool {
        self.matrix.wf() && self.rotary.wf()
    }

    /// The pressed state of the encoder's push button: 1 pressed, 0
    /// released.
    pub open spec fn push(self) -> int {
        self.matrix.cells[PUSH_ROW as int][PUSH_COL as int].pressed
    }

    /// Whether the keyboard is in use: a key is pressed or the encoder
    /// has turned.
    pub open spec fn active(self) -> bool {
        self.matrix.any_pressed() || self.rotary.dir != NO_ROTATION
    }

    /// The layer that is in force: the function layer exactly while the
    /// function key is pressed.
    pub open spec fn layer(self) -> Layer {
        if self.matrix.is_pressed(FN_ROW as int, FN_COL as int) {
            Layer::Function
        } else {
            Layer::Base
        }
    }

    /// The keyboard report of this pass: every slot of the key map says
    /// its key code of the layer in force while its key is pressed, and
    /// no event otherwise.
    pub open spec fn keyboard_report(self) -> Seq<KeyCode> {
        Seq::new(
            KEY_COUNT as nat,
            |k: int|
                if self.matrix.is_pressed(SLOT_ROWS[k] as int, SLOT_COLS[k] as int) {
                    slot_code(k, self.layer())
                } else {
                    KeyCode::NoEventIndicated
                },
        )
    }

    /// The consumer report of this period.
    pub open spec fn consumer_report(self) -> ConsumerReport {
        ConsumerReport::single(self.rotary.choice(self.push()))
    }

    /// The phase a pass begins with.
    pub open spec fn first_phase(self) -> Phase {
        if self.display {
            Phase::Housekeeping
        } else {
            Phase::KeyboardTimer
        }
    }

    /// The phase that looks after caps lock, or the one after it where
    /// the display shows what the host said.
    pub open spec fn caps_phase(link: StatusLink) -> Phase {
        if link.caps_on != link.caps_shown {
            Phase::CapsCheck
        } else {
            Phase::KeyboardTimer
        }
    }

    /// After the display was looked after.
    pub open spec fn housekept(self, timed_out: bool, ready: bool) -> SchedulerView {
        let link = self.link.display_checked(self.active(), timed_out, ready);
        SchedulerView {
            link,
            phase: match self.link.display_signal(self.active(), timed_out, ready) {
                Some(signal) => Phase::DisplayNotice(signal),
                None => SchedulerView::caps_phase(link),
            },
            ..self
        }
    }

    /// After the link said whether it can take the word about caps lock.
    pub open spec fn caps_checked(self, ready: bool) -> SchedulerView {
        SchedulerView {
            link: self.link.caps_checked(ready),
            phase: match self.link.caps_signal(ready) {
                Some(signal) => Phase::CapsNotice(signal),
                None => Phase::KeyboardTimer,
            },
            ..self
        }
    }

    /// After the transport answered: the device stops on a fatal answer
    /// and goes on to `next` on any other.
    pub open spec fn answered(self, outcome: TransportOutcome, reason: HaltReason, next: Phase)
        -> SchedulerView {
        SchedulerView {
            phase: if outcome.is_fatal() {
                Phase::Halted(reason)
            } else {
                next
            },
            ..self
        }
    }

    /// After the host was polled.
    pub open spec fn polled(self, result: PollResult) -> SchedulerView {
        match result {
            PollResult::Quiet => SchedulerView { phase: Phase::ConsumerTimer, ..self },
            PollResult::Leds { caps_lock } => SchedulerView {
                link: self.link.host_said(caps_lock),
                phase: Phase::ConsumerTimer,
                ..self
            },
            PollResult::Fault => SchedulerView {
                phase: Phase::Halted(HaltReason::TransportPoll),
                ..self
            },
        }
    }

    /// After a report period has ended: the encoder forgets the press and
    /// the rotation of the period, and the scan is next.
    pub open spec fn period_ended(self) -> SchedulerView {
        SchedulerView { rotary: self.rotary.reported(self.push() == 1), phase: Phase::Scan, ..self }
    }

    /// After the timer of the consumer report answered. A report that is
    /// due is sent only if it differs from the last one that the
    /// transport accepted.
    pub open spec fn consumer_timed(self, due: bool) -> SchedulerView {
        if !due {
            SchedulerView { phase: Phase::Scan, ..self }
        } else if self.channel.wants(self.consumer_report()) {
            SchedulerView { phase: Phase::ConsumerSend, ..self }
        } else {
            self.period_ended()
        }
    }

    /// After the transport answered to the consumer report.
    pub open spec fn consumer_answered(self, outcome: TransportOutcome) -> SchedulerView {
        if outcome.is_fatal() {
            SchedulerView { phase: Phase::Halted(HaltReason::ConsumerReport), ..self }
        } else {
            SchedulerView {
                channel: self.channel.recorded(self.consumer_report(), outcome),
                ..self
            }.period_ended()
        }
    }

    /// After a scan pass: every key has taken its reading, and a pressed
    /// push button is remembered.
    pub open spec fn scanned(self, readings: Readings) -> SchedulerView {
        let matrix = self.matrix.scanned(readings);
        SchedulerView {
            matrix,
            rotary: self.rotary.latched(matrix.is_pressed(PUSH_ROW as int, PUSH_COL as int)),
            phase: Phase::Sample,
            ..self
        }
    }

    /// After a sample of the encoder: the pass is over and the next one
    /// begins.
    pub open spec fn sampled(self, a: bool, b: bool) -> SchedulerView {
        SchedulerView { rotary: self.rotary.sampled(a, b), phase: self.first_phase(), ..self }
    }

    /// The scheduler after an event that answers the pending action. An
    /// event that does not answer it changes nothing.
    pub open spec fn progressed(self, event: Event) -> SchedulerView {
        match (self.phase, event) {
            (Phase::Housekeeping, Event::Housekeeping { timed_out, ready }) => self.housekept(
                timed_out,
                ready,
            ),
            (Phase::DisplayNotice(_), Event::Done) => SchedulerView {
                phase: SchedulerView::caps_phase(self.link),
                ..self
            },
            (Phase::CapsCheck, Event::Link { ready }) => self.caps_checked(ready),
            (Phase::CapsNotice(_), Event::Done) => SchedulerView {
                phase: Phase::KeyboardTimer,
                ..self
            },
            (Phase::KeyboardTimer, Event::Timer { due }) => SchedulerView {
                phase: if due {
                    Phase::KeyboardSend
                } else {
                    Phase::TickTimer
                },
                ..self
            },
            (Phase::KeyboardSend, Event::Transport(outcome)) => self.answered(
                outcome,
                HaltReason::KeyboardReport,
                Phase::TickTimer,
            ),
            (Phase::TickTimer, Event::Timer { due }) => SchedulerView {
                phase: if due {
                    Phase::Tick
                } else {
                    Phase::Poll
                },
                ..self
            },
            (Phase::Tick, Event::Transport(outcome)) => self.answered(
                outcome,
                HaltReason::TransportTick,
                Phase::Poll,
            ),
            (Phase::Poll, Event::Polled(result)) => self.polled(result),
            (Phase::ConsumerTimer, Event::Timer { due }) => self.consumer_timed(due),
            (Phase::ConsumerSend, Event::Transport(outcome)) => self.consumer_answered(outcome),
            (Phase::Scan, Event::Matrix(readings)) => self.scanned(readings),
            (Phase::Sample, Event::Phases { a, b }) => self.sampled(a, b),
            _ => self,
        }
    }

    /// The scheduler after `event`. A hardware fault stops the device
    /// wherever the pass stands; a stopped device stays stopped.
    pub open spec fn stepped(self, event: Event) -> SchedulerView {
        if self.phase is Halted {
            self
        } else if event is HardwareFault {
            SchedulerView { phase: Phase::Halted(HaltReason::Hardware), ..self }
        } else {
            self.progressed(event)
        }
    }

    /// The piece of work that is due.
    pub open spec fn pending(self) -> Action {
        match self.phase {
            Phase::Housekeeping => Action::Housekeeping {
                restart_timer: self.active(),
                ask_timeout: self.link.awaits_timeout(self.active()),
            },
            Phase::DisplayNotice(signal) => Action::Notify {
                signal,
                stop_timer: signal == Signal::DisplayOff,
            },
            Phase::CapsCheck => Action::AskLink,
            Phase::CapsNotice(signal) => Action::Notify { signal, stop_timer: false },
            Phase::KeyboardTimer => Action::AskTimer(Timer::KeyboardReport),
            Phase::KeyboardSend => Action::SendKeyboard,
            Phase::TickTimer => Action::AskTimer(Timer::TransportTick),
            Phase::Tick => Action::Tick,
            Phase::Poll => Action::Poll,
            Phase::ConsumerTimer => Action::AskTimer(Timer::ConsumerReport),
            Phase::ConsumerSend => Action::SendConsumer,
            Phase::Scan => Action::ScanMatrix,
            Phase::Sample => Action::SampleEncoder,
            Phase::Halted(reason) => Action::Halt(reason),
        }
    }

    /// The place of a phase in the order of a pass.
    pub open spec fn rank(phase: Phase) -> int {
        match phase {
            Phase::Housekeeping => 0,
            Phase::DisplayNotice(_) => 1,
            Phase::CapsCheck => 2,
            Phase::CapsNotice(_) => 3,
            Phase::KeyboardTimer => 4,
            Phase::KeyboardSend => 5,
            Phase::TickTimer => 6,
            Phase::Tick => 7,
            Phase::Poll => 8,
            Phase::ConsumerTimer => 9,
            Phase::ConsumerSend => 10,
            Phase::Scan => 11,
            Phase::Sample => 12,
            Phase::Halted(_) => 13,
        }
    }

    /// Nothing is pressed, the encoder is at rest, and the host holds the
    /// blank consumer report.
    pub open spec fn quiet(self) -> bool {
        &&& forall|r: int, c: int|
            0 <= r < ROWS && 0 <= c < COLS ==> (#[trigger] self.matrix.cells[r][c]).pressed == 0
        &&& self.rotary.dir == NO_ROTATION
        &&& !self.rotary.was_pressed
        &&& self.channel.last == ConsumerReport::blank()
        &&& self.phase != Phase::ConsumerSend
        &&& !(self.phase is Halted)
    }

    /// An event that leaves a quiet keyboard quiet: no switch conducts,
    /// the encoder does not turn and nothing fails.
    pub open spec fn calm(self, event: Event) -> bool {
        match event {
            Event::Matrix(readings) => forall|r: int, c: int|
                0 <= r < ROWS && 0 <= c < COLS ==> !#[trigger] readings[r][c],
            Event::Phases { a, b } => self.rotary.rotation(a, b) == NO_ROTATION,
            Event::Transport(outcome) => !outcome.is_fatal(),
            Event::Polled(result) => result != PollResult::Fault,
            Event::HardwareFault => false,
            _ => true,
        }
    }
}

/// The scheduler of the main loop, with everything the loop remembers
/// from one pass to the next.
#[derive(Clone, Copy, Debug)]
pub struct Scheduler {
    /// The switch matrix.
    pub matrix: KeyMatrix,
    /// The rotary encoder.
    pub rotary: Rotary,
    /// What the display was told.
    pub link: StatusLink,
    /// The sending side of the consumer reports.
    pub channel: ConsumerChannel,
    /// Where the pass stands.
    pub phase: Phase,
    /// Whether there is a display to look after.
    pub display: bool,
}

impl View for Scheduler {
    type V = SchedulerView;

    open spec fn view(&self) -> SchedulerView {
        SchedulerView {
            matrix: self.matrix@,
            rotary: self.rotary,
            link: self.link,
            channel: self.channel,
            phase: self.phase,
            display: self.display,
        }
    }
}

impl Scheduler {
    /// The scheduler at the start of the first pass.
    pub open spec fn at_start(threshold: int, display: bool, a: bool, b: bool) -> SchedulerView {
        SchedulerView {
            matrix: MatrixView::released(threshold),
            rotary: Rotary::at_rest(a, b),
            link: StatusLink::at_start(),
            channel: ConsumerChannel { last: ConsumerReport::blank() },
            phase: if display {
                Phase::Housekeeping
            } else {
                Phase::KeyboardTimer
            },
            display,
        }
    }

    /// A scheduler at the start of its first pass. `threshold` is the
    /// number of readings beyond which a press or a release is
    /// confirmed, `display` says whether there is a display to look
    /// after, `a` and `b` are the phases of the encoder as read at start.
    pub fn new(threshold: i32, display: bool, a: bool, b: bool) -> (scheduler: Scheduler)
        ensures
            scheduler@ == Scheduler::at_start(threshold as int, display, a, b),
            threshold >= 0 ==> scheduler@.wf() && scheduler@.quiet(),
    {
        Scheduler {
            matrix: KeyMatrix::new(threshold),
            rotary: Rotary::new(a, b),
            link: StatusLink::new(),
            channel: ConsumerChannel::new(),
            phase: if display {
                Phase::Housekeeping
            } else {
                Phase::KeyboardTimer
            },
            display,
        }
    }

    /// Whether the keyboard is in use: a key is pressed or the encoder
    /// has turned.
    pub fn is_active(&self) -> (active: bool)
        ensures
            active == self@.active(),
    {
        self.matrix.any_pressed() || self.rotary.dir != NO_ROTATION
    }

    /// The keyboard report of this pass: the pressed keys in the layer
    /// that the function key selects.
    pub fn keyboard_report(&self) -> (report: KeyboardReport)
        ensures
            report@ == self@.keyboard_report(),
    {
        layered_report(&self.matrix.pressed)
    }

    /// The consumer report of this period.
    pub fn consumer_report(&self) -> (report: ConsumerReport)
        ensures
            report == self@.consumer_report(),
    {
        let codes = get_consumer(
            self.matrix.pressed,
            self.rotary.dir,
            self.rotary.was_pressed,
            self.rotary.can_push,
        );
        ConsumerReport::from_code(codes[0])
    }

    /// The piece of work that is due.
    pub fn pending(&self) -> (action: Action)
        ensures
            action == self@.pending(),
    {
        match self.phase {
            Phase::Housekeeping => {
                let active = self.is_active();
                Action::Housekeeping {
                    restart_timer: active,
                    ask_timeout: self.link.wants_timeout(active),
                }
            },
            Phase::DisplayNotice(signal) => Action::Notify {
                signal,
                stop_timer: signal == Signal::DisplayOff,
            },
            Phase::CapsCheck => Action::AskLink,
            Phase::CapsNotice(signal) => Action::Notify { signal, stop_timer: false },
            Phase::KeyboardTimer => Action::AskTimer(Timer::KeyboardReport),
            Phase::KeyboardSend => Action::SendKeyboard,
            Phase::TickTimer => Action::AskTimer(Timer::TransportTick),
            Phase::Tick => Action::Tick,
            Phase::Poll => Action::Poll,
            Phase::ConsumerTimer => Action::AskTimer(Timer::ConsumerReport),
            Phase::ConsumerSend => Action::SendConsumer,
            Phase::Scan => Action::ScanMatrix,
            Phase::Sample => Action::SampleEncoder,
            Phase::Halted(reason) => Action::Halt(reason),
        }
    }

    fn caps_phase(&self) -> (phase: Phase)
        ensures
            phase == SchedulerView::caps_phase(self.link),
    {
        if self.link.caps_pending() {
            Phase::CapsCheck
        } else {
            Phase::KeyboardTimer
        }
    }

    fn end_period(&mut self)
        ensures
            final(self)@ == old(self)@.period_ended(),
    {
        let pressed = self.matrix.pressed[PUSH_ROW][PUSH_COL] == 1;
        self.rotary.finish_report(pressed);
        self.phase = Phase::Scan;
    }

    fn after_answer(&mut self, outcome: TransportOutcome, reason: HaltReason, next: Phase)
        ensures
            final(self)@ == old(self)@.answered(outcome, reason, next),
    {
        self.phase = match outcome.verdict() {
            Verdict::Halt => Phase::Halted(reason),
            Verdict::Continue => next,
        };
    }

    fn housekeep(&mut self, timed_out: bool, ready: bool)
        ensures
            final(self)@ == old(self)@.housekept(timed_out, ready),
    {
        let active = self.is_active();
        match self.link.check_display(active, timed_out, ready) {
            Some(signal) => {
                self.phase = Phase::DisplayNotice(signal);
            },
            None => {
                self.phase = self.caps_phase();
            },
        }
    }

    fn check_caps(&mut self, ready: bool)
        ensures
            final(self)@ == old(self)@.caps_checked(ready),
    {
        match self.link.check_caps(ready) {
            Some(signal) => {
                self.phase = Phase::CapsNotice(signal);
            },
            None => {
                self.phase = Phase::KeyboardTimer;
            },
        }
    }

    fn after_poll(&mut self, result: PollResult)
        ensures
            final(self)@ == old(self)@.polled(result),
    {
        match result {
            PollResult::Quiet => {
                self.phase = Phase::ConsumerTimer;
            },
            PollResult::Leds { caps_lock } => {
                self.link.set_caps_lock(caps_lock);
                self.phase = Phase::ConsumerTimer;
            },
            PollResult::Fault => {
                self.phase = Phase::Halted(HaltReason::TransportPoll);
            },
        }
    }

    fn after_consumer_timer(&mut self, due: bool)
        ensures
            final(self)@ == old(self)@.consumer_timed(due),
    {
        if !due {
            self.phase = Phase::Scan;
        } else {
            let report = self.consumer_report();
            if self.channel.needs_sending(&report) {
                self.phase = Phase::ConsumerSend;
            } else {
                self.end_period();
            }
        }
    }

    fn after_consumer_answer(&mut self, outcome: TransportOutcome)
        ensures
            final(self)@ == old(self)@.consumer_answered(outcome),
    {
        match outcome.verdict() {
            Verdict::Halt => {
                self.phase = Phase::Halted(HaltReason::ConsumerReport);
            },
            Verdict::Continue => {
                let report = self.consumer_report();
                self.channel.record(report, outcome);
                self.end_period();
            },
        }
    }

    fn after_scan(&mut self, readings: &Readings)
        ensures
            final(self)@ == old(self)@.scanned(*readings),
    {
        self.matrix.scan_pass(readings);
        let pressed = self.matrix.pressed[PUSH_ROW][PUSH_COL] == 1;
        self.rotary.note_push(pressed);
        self.phase = Phase::Sample;
    }

    fn after_sample(&mut self, a: bool, b: bool)
        ensures
            final(self)@ == old(self)@.sampled(a, b),
    {
        self.rotary.sample(a, b);
        self.phase = if self.display {
            Phase::Housekeeping
        } else {
            Phase::KeyboardTimer
        };
    }

    fn after_timer(&mut self, due: bool, work: Phase, next: Phase)
        ensures
            final(self)@ == (SchedulerView {
                phase: if due {
                    work
                } else {
                    next
                },
                ..old(self)@
            }),
    {
        self.phase = if due {
            work
        } else {
            next
        };
    }

    fn progress(&mut self, event: Event)
        ensures
            final(self)@ == old(self)@.progressed(event),
    {
        match (self.phase, event) {
            (Phase::Housekeeping, Event::Housekeeping { timed_out, ready }) => {
                self.housekeep(timed_out, ready);
            },
            (Phase::DisplayNotice(_), Event::Done) => {
                self.phase = self.caps_phase();
            },
            (Phase::CapsCheck, Event::Link { ready }) => {
                self.check_caps(ready);
            },
            (Phase::CapsNotice(_), Event::Done) => {
                self.phase = Phase::KeyboardTimer;
            },
            (Phase::KeyboardTimer, Event::Timer { due }) => {
                self.after_timer(due, Phase::KeyboardSend, Phase::TickTimer);
            },
            (Phase::KeyboardSend, Event::Transport(outcome)) => {
                self.after_answer(outcome, HaltReason::KeyboardReport, Phase::TickTimer);
            },
            (Phase::TickTimer, Event::Timer { due }) => {
                self.after_timer(due, Phase::Tick, Phase::Poll);
            },
            (Phase::Tick, Event::Transport(outcome)) => {
                self.after_answer(outcome, HaltReason::TransportTick, Phase::Poll);
            },
            (Phase::Poll, Event::Polled(result)) => {
                self.after_poll(result);
            },
            (Phase::ConsumerTimer, Event::Timer { due }) => {
                self.after_consumer_timer(due);
            },
            (Phase::ConsumerSend, Event::Transport(outcome)) => {
                self.after_consumer_answer(outcome);
            },
            (Phase::Scan, Event::Matrix(readings)) => {
                self.after_scan(&readings);
            },
            (Phase::Sample, Event::Phases { a, b }) => {
                self.after_sample(a, b);
            },
            _ => {},
        }
    }

    /// Takes in what came of the pending action and names the action
    /// that is due next.
    pub fn step(&mut self, event: Event) -> (action: Action)
        ensures
            final(self)@ == old(self)@.stepped(event),
            action == final(self)@.pending(),
            old(self)@.wf() ==> final(self)@.wf(),
    {
        match self.phase {
            Phase::Halted(_) => {},
            _ => {
                match event {
                    Event::HardwareFault => {
                        self.phase = Phase::Halted(HaltReason::Hardware);
                    },
                    _ => {
                        self.progress(event);
                    },
                }
            },
        }
        self.pending()
    }
}

/// A step keeps the matrix and the encoder well formed.
pub proof fn lemma_step_keeps_wf(scheduler: SchedulerView, event: Event)
    requires
        scheduler.wf(),
    ensures
        scheduler.stepped(event).wf(),
{
}

/// The order of a pass is fixed. A step stays where it is (the event did
/// not answer the pending action), moves forward in the order of the
/// pass, or ends the pass after the sample of the encoder. So a new pass
/// never begins before the matrix was scanned and the encoder sampled.
pub proof fn lemma_pass_order(scheduler: SchedulerView, event: Event)
    ensures
        scheduler.stepped(event).phase == scheduler.phase || SchedulerView::rank(
            scheduler.stepped(event).phase,
        ) > SchedulerView::rank(scheduler.phase) || (scheduler.phase == Phase::Sample
            && scheduler.stepped(event).phase == scheduler.first_phase()),
        scheduler.stepped(event).phase == Phase::Sample && scheduler.phase != Phase::Sample
            ==> scheduler.phase == Phase::Scan,
        scheduler.phase == Phase::Scan ==> scheduler.stepped(event).phase == Phase::Scan
            || scheduler.stepped(event).phase == Phase::Sample || scheduler.stepped(event).phase
            == Phase::Halted(HaltReason::Hardware),
        scheduler.stepped(event).display == scheduler.display,
        scheduler.stepped(event).matrix.threshold == scheduler.matrix.threshold,
{
}

/// A timer that has not run out costs nothing: the keyboard report and the
/// maintenance tick are done exactly when their timers say that they are
/// due, and the host is polled in every pass.
pub proof fn lemma_timers_decide(scheduler: SchedulerView, due: bool)
    ensures
        scheduler.phase == Phase::KeyboardTimer ==> scheduler.stepped(
            Event::Timer { due },
        ).pending() == (if due {
            Action::SendKeyboard
        } else {
            Action::AskTimer(Timer::TransportTick)
        }),
        scheduler.phase == Phase::TickTimer ==> scheduler.stepped(Event::Timer { due }).pending()
            == (if due {
            Action::Tick
        } else {
            Action::Poll
        }),
        scheduler.phase == Phase::ConsumerTimer && !due ==> scheduler.stepped(
            Event::Timer { due },
        ) == (SchedulerView { phase: Phase::Scan, ..scheduler }),
{
}

/// What a pass reports is what the pass before has found: the matrix
/// changes in the scan and nowhere else, and the encoder changes in the
/// scan, in the sample and at the end of a report period and nowhere
/// else.
pub proof fn lemma_state_changes_in_its_phase(scheduler: SchedulerView, event: Event)
    ensures
        scheduler.stepped(event).matrix != scheduler.matrix ==> scheduler.phase == Phase::Scan,
        scheduler.stepped(event).rotary != scheduler.rotary ==> scheduler.phase == Phase::Scan
            || scheduler.phase == Phase::Sample || scheduler.phase == Phase::ConsumerTimer
            || scheduler.phase == Phase::ConsumerSend,
        scheduler.stepped(event).channel != scheduler.channel ==> scheduler.phase
            == Phase::ConsumerSend,
        scheduler.stepped(event).link != scheduler.link ==> scheduler.phase == Phase::Housekeeping
            || scheduler.phase == Phase::CapsCheck || scheduler.phase == Phase::Poll,
{
}

/// An answer of the transport stops the device exactly when it is a
/// fault: a busy transport and an unchanged report let the pass go on.
pub proof fn lemma_only_faults_halt(scheduler: SchedulerView, outcome: TransportOutcome)
    requires
        scheduler.phase == Phase::KeyboardSend || scheduler.phase == Phase::Tick || scheduler.phase
            == Phase::ConsumerSend,
    ensures
        scheduler.stepped(Event::Transport(outcome)).phase is Halted <==> outcome
            == TransportOutcome::Fault,
{
}

/// A consumer report is sent when it is due and differs from the last one
/// that the transport accepted, and only then.
pub proof fn lemma_consumer_report_is_sent_when_new(scheduler: SchedulerView, due: bool)
    requires
        scheduler.phase == Phase::ConsumerTimer,
    ensures
        scheduler.stepped(Event::Timer { due }).pending() == Action::SendConsumer <==> (due
            && scheduler.channel.wants(scheduler.consumer_report())),
{
}

/// A consumer report that the transport accepted is not sent again: when
/// the next period asks for the same report, the pass goes on to the scan
/// and the transport is left alone. A report that met a busy transport is
/// not taken as sent.
pub proof fn lemma_accepted_report_is_sent_once(
    scheduler: SchedulerView,
    later: SchedulerView,
    outcome: TransportOutcome,
)
    requires
        scheduler.phase == Phase::ConsumerSend,
        later.phase == Phase::ConsumerTimer,
        later.channel == scheduler.stepped(Event::Transport(outcome)).channel,
        later.consumer_report() == scheduler.consumer_report(),
    ensures
        outcome == TransportOutcome::Accepted ==> later.stepped(Event::Timer { due: true }).phase
            == Phase::Scan,
        outcome != TransportOutcome::Accepted ==> scheduler.stepped(
            Event::Transport(outcome),
        ).channel == scheduler.channel,
{
}

/// A spoiled push waits for the release. While a push does not count, no
/// step makes it count again but the end of a report period at which the
/// button is up.
pub proof fn lemma_spoiled_push_waits_for_release(scheduler: SchedulerView, event: Event)
    requires
        !scheduler.rotary.can_push,
        scheduler.stepped(event).rotary.can_push,
    ensures
        scheduler.phase == Phase::ConsumerTimer || scheduler.phase == Phase::ConsumerSend,
        scheduler.push() != 1,
        scheduler.stepped(event).phase == Phase::Scan,
        scheduler.stepped(event).rotary == scheduler.rotary.reported(false),
{
}

/// An idle keyboard reports nothing. While nothing is pressed and the
/// encoder is at rest, the keyboard report says no event in every slot,
/// the consumer report is blank and is never handed to the transport, and
/// as long as no switch conducts, the encoder does not turn and nothing
/// fails, every step leaves the keyboard as idle as it was.
pub proof fn lemma_quiet_stays_quiet(scheduler: SchedulerView, event: Event)
    requires
        scheduler.quiet(),
        scheduler.calm(event),
    ensures
        forall|k: int|
            0 <= k < KEY_COUNT ==> #[trigger] scheduler.keyboard_report()[k]
                == KeyCode::NoEventIndicated,
        scheduler.consumer_report() == ConsumerReport::blank(),
        scheduler.pending() != Action::SendConsumer,
        !scheduler.active(),
        scheduler.stepped(event).quiet(),
        scheduler.stepped(event).pending() != Action::SendConsumer,
{
}

} // verus!
