//! Runs the rendering sequences: first the start-up script, one step at a
//! time, then a redraw for every event that the latch holds.
//!
//! The sequencer decides and the caller performs. [`RenderSequencer::next`]
//! says what is due; the caller does it and reports how it went with
//! [`RenderSequencer::settle`]; only then does the sequencer move on.
//! Any failure halts the sequencer for good: nothing is retried and
//! nothing is skipped.

use crate::arbiter::{BusError, DeviceSelector};
use crate::channel::{DisplayChannel, DriverError};
use crate::gfx;
use crate::gfx_spi;
use crate::latch::{EventLatch, LatchEvent, LatchState};
use crate::message::{counter_text, Message, MAX_COUNTER};
use crate::script::{Color, Step};
use vstd::prelude::*;

verus! {

/// Pause between the splash of the colour displays and that of the small
/// ones, and after the latter, in milliseconds.
pub const INTERLUDE_HOLD_MS: u32 = 1000;

/// Pause before the steady state begins, in milliseconds.
pub const CREDITS_HOLD_MS: u32 = 1500;

/// Why the sequencer halted.
#[derive(Clone, Copy, Debug, PartialEq, Eq, Structural)]
pub enum Failure {
    /// A transaction on the bus failed.
    Bus(BusError),
    /// A display refused an operation.
    Driver(DriverError),
    /// The counter has no text that fits into a message.
    Overflow,
}

/// What the caller is to do now.
#[derive(Clone, Copy, Debug, PartialEq, Eq)]
pub enum Action {
    /// Perform this step of the start-up script.
    Perform(Step),
    /// Draw the scene of `title` and `message` on `target` and flush it.
    Redraw { target: DeviceSelector, title: &'static str, message: Message },
    /// Nothing is due.
    Idle,
    /// The sequencer has halted.
    Halt(Failure),
}

/// What a sequencer keeps, as a mathematical value.
pub struct SequencerState {
    /// The start-up script.
    pub script: Seq<Step>,
    /// Number of steps of the script that are done.
    pub cursor: nat,
    /// Number of redraws that are done.
    pub counter: u32,
    /// The display that redraws go to.
    pub target: DeviceSelector,
    /// An action was handed out and is not settled.
    pub pending: bool,
    /// The failure that halted the sequencer.
    pub failure: Option<Failure>,
}

impl SequencerState {
    /// The cursor lies in the script, a pending redraw has a text, and a
    /// halted sequencer has nothing pending.
    pub open spec fn wf(self) -> bool {
        &&& self.cursor <= self.script.len()
        &&& self.pending && self.steady() ==> self.counter < MAX_COUNTER
        &&& self.failure is Some ==> !self.pending
    }

    /// The start-up script is done.
    pub open spec fn steady(self) -> bool {
        self.cursor >= self.script.len()
    }

    /// The state after the sequencer was asked what is due, with the latch
    /// in state `latch`.
    pub open spec fn after_next(self, latch: LatchState) -> SequencerState {
        if self.failure is Some {
            self
        } else if !self.steady() {
            SequencerState { pending: true, ..self }
        } else if !latch.set {
            SequencerState { pending: false, ..self }
        } else if self.counter < MAX_COUNTER {
            SequencerState { pending: true, ..self }
        } else {
            SequencerState { pending: false, failure: Some(Failure::Overflow), ..self }
        }
    }

    /// The state after the caller reported `outcome` for the pending
    /// action. Without a pending action there is nothing to settle.
    pub open spec fn after_settle(self, outcome: Result<(), Failure>) -> SequencerState {
        if !self.pending {
            self
        } else {
            match outcome {
                Err(failure) => SequencerState { pending: false, failure: Some(failure), ..self },
                Ok(()) => if !self.steady() {
                    SequencerState { pending: false, cursor: self.cursor + 1, ..self }
                } else {
                    SequencerState {
                        pending: false,
                        counter: (self.counter + 1) as u32,
                        ..self
                    }
                },
            }
        }
    }

    /// Settling clears the latch exactly when it settles a redraw that
    /// succeeded.
    pub open spec fn settle_clears(self, outcome: Result<(), Failure>) -> bool {
        self.pending && self.steady() && outcome is Ok
    }
}

/// Title of the scene of a redraw.
pub fn redraw_title() -> (title: &'static str)
    ensures
        title@ == "BOOP BOOP"@,
{
    "BOOP BOOP"
}

/// Orders the start-up script and the redraws that follow it.
#[derive(Debug)]
pub struct RenderSequencer {
    script: Vec<Step>,
    cursor: usize,
    counter: u32,
    target: DeviceSelector,
    pending: bool,
    failure: Option<Failure>,
}

impl View for RenderSequencer {
    type V = SequencerState;

    closed spec fn view(&self) -> SequencerState {
        SequencerState {
            script: self.script@,
            cursor: self.cursor as nat,
            counter: self.counter,
            target: self.target,
            pending: self.pending,
            failure: self.failure,
        }
    }
}

impl RenderSequencer {
    #[verifier::type_invariant]
    spec fn inv(self) -> bool {
        self@.wf()
    }

    /// A sequencer that runs `script` and then redraws on `target`.
    pub fn new(script: Vec<Step>, target: DeviceSelector) -> (sequencer: RenderSequencer)
        ensures
            sequencer@ == (SequencerState {
                script: script@,
                cursor: 0,
                counter: 0,
                target,
                pending: false,
                failure: None,
            }),
            sequencer@.wf(),
    {
        RenderSequencer { script, cursor: 0, counter: 0, target, pending: false, failure: None }
    }

    /// Number of redraws that are done.
    pub fn counter(&self) -> (counter: u32)
        ensures
            counter == self@.counter,
    {
        self.counter
    }

    /// Whether the start-up script is done.
    pub fn is_steady(&self) -> (steady: bool)
        ensures
            steady == self@.steady(),
            self@.wf(),
    {
        proof {
            use_type_invariant(self);
        }
        self.cursor >= self.script.len()
    }

    /// The failure that halted the sequencer, if it has halted.
    pub fn failure(&self) -> (failure: Option<Failure>)
        ensures
            failure == self@.failure,
    {
        self.failure
    }

    /// Says what is due, and remembers that it was handed out.
    ///
    /// A halted sequencer stays halted. While the script lasts, its next
    /// step is due, whatever the latch holds, and the same step is due
    /// again until it is settled. After the script a redraw with the text
    /// of the next counter value is due exactly when the latch is set; when
    /// that value has no text that fits, the sequencer halts with
    /// `Overflow` instead. The latch is only read.
    pub fn next(&mut self, latch: &EventLatch) -> (action: Action)
        ensures
            final(self)@ == old(self)@.after_next(latch@),
            final(self)@.wf(),
            match old(self)@.failure {
                Some(failure) => action == Action::Halt(failure),
                None => if !old(self)@.steady() {
                    action == Action::Perform(old(self)@.script[old(self)@.cursor as int])
                } else if !latch@.set {
                    action == Action::Idle
                } else if old(self)@.counter < MAX_COUNTER {
                    &&& action matches Action::Redraw { target, title, message }
                    &&& target == old(self)@.target
                    &&& title@ == "BOOP BOOP"@
                    &&& message@ == counter_text((old(self)@.counter + 1) as u32)
                } else {
                    action == Action::Halt(Failure::Overflow)
                },
            },
    {
        proof {
            use_type_invariant(&*self);
        }
        if let Some(failure) = self.failure {
            return Action::Halt(failure);
        }
        if self.cursor < self.script.len() {
            self.pending = true;
            return Action::Perform(self.script[self.cursor]);
        }
        if !latch.is_set() {
            self.pending = false;
            return Action::Idle;
        }
        if self.counter >= MAX_COUNTER {
            self.pending = false;
            self.failure = Some(Failure::Overflow);
            return Action::Halt(Failure::Overflow);
        }
        match Message::for_counter(self.counter + 1) {
            Some(message) => {
                self.pending = true;
                Action::Redraw { target: self.target, title: redraw_title(), message }
            },
            None => {
                // Not reached: every counter value up to the bound has a text.
                self.pending = false;
                self.failure = Some(Failure::Overflow);
                Action::Halt(Failure::Overflow)
            },
        }
    }

    /// Takes the caller's report on the action that is pending.
    ///
    /// A failure halts the sequencer and leaves the latch as it is. A
    /// step that succeeded moves the script on by one. A redraw that
    /// succeeded counts, and only now, with the work dispatched, is the
    /// latch cleared. With nothing pending nothing changes.
    pub fn settle(&mut self, latch: &mut EventLatch, outcome: Result<(), Failure>)
        ensures
            final(self)@ == old(self)@.after_settle(outcome),
            final(self)@.wf(),
            final(latch)@ == if old(self)@.settle_clears(outcome) {
                old(latch)@.step(LatchEvent::Clear)
            } else {
                old(latch)@
            },
    {
        proof {
            use_type_invariant(&*self);
        }
        if !self.pending {
            return ;
        }
        self.pending = false;
        match outcome {
            Err(failure) => {
                self.failure = Some(failure);
            },
            Ok(()) => {
                if self.cursor < self.script.len() {
                    self.cursor = self.cursor + 1;
                } else {
                    self.counter = self.counter + 1;
                    latch.clear();
                }
            },
        }
    }
}

/// The start-up script, as a sequence: the small displays are brought up
/// and greet; the colour displays are brought up, and each in turn is
/// selected, cleared and shows its splash; after a pause the small displays
/// show theirs; after another they show the credits, which stay for
/// [`CREDITS_HOLD_MS`].
pub open spec fn startup_steps(
    d1: DeviceSelector,
    d2: DeviceSelector,
    tft1: DeviceSelector,
    tft2: DeviceSelector,
    bring_up: Seq<Step>,
) -> Seq<Step> {
    seq![
        Step::Init { target: d1 },
        Step::Init { target: d2 },
        Step::Scene { target: d1, title: ">> Das Labor <<", text: "Write Rust!" },
        Step::Flush { target: d1 },
        Step::Scene { target: d2, title: "\\o/ *woop woop* \\o/", text: "Party hard!" },
        Step::Flush { target: d2 },
    ] + bring_up + seq![
        Step::Select { target: tft1 },
        Step::Clear { target: tft1, color: Color::Black },
    ] + gfx_spi::splash_steps(tft1) + seq![
        Step::Select { target: tft2 },
        Step::Clear { target: tft2, color: Color::Black },
    ] + gfx_spi::splash_steps(tft2) + seq![Step::Hold { millis: INTERLUDE_HOLD_MS }]
        + gfx::splash_steps(d1, d2) + seq![
        Step::Hold { millis: INTERLUDE_HOLD_MS },
        Step::Scene { target: d1, title: "GFX", text: "regines" },
        Step::Flush { target: d1 },
        Step::Scene { target: d2, title: "code", text: "CyReVolt" },
        Step::Flush { target: d2 },
        Step::Hold { millis: CREDITS_HOLD_MS },
    ]
}

/// Appends `more` to `steps`.
fn extend(steps: &mut Vec<Step>, more: &Vec<Step>)
    ensures
        final(steps)@ == old(steps)@ + more@,
{
    let mut i: usize = 0;
    assert(steps@ =~= old(steps)@ + more@.take(0));
    while i < more.len()
        invariant
            i <= more.len(),
            steps@ == old(steps)@ + more@.take(i as int),
        decreases more.len() - i,
    {
        steps.push(more[i]);
        assert(steps@ =~= old(steps)@ + more@.take(i + 1));
        i = i + 1;
    }
    assert(more@.take(i as int) =~= more@);
}

/// The start-up script for the two small displays `d1` and `d2` and the two
/// colour displays `tft1` and `tft2`, whose bring-up is `bring_up`.
pub fn startup_script(
    d1: &DisplayChannel,
    d2: &DisplayChannel,
    tft1: &DisplayChannel,
    tft2: &DisplayChannel,
    bring_up: &Vec<Step>,
) -> (steps: Vec<Step>)
    ensures
        steps@ == startup_steps(
            d1@.selector,
            d2@.selector,
            tft1@.selector,
            tft2@.selector,
            bring_up@,
        ),
{
    let a = d1.selector();
    let b = d2.selector();
    let c = tft1.selector();
    let d = tft2.selector();
    let mut steps: Vec<Step> = Vec::new();
    steps.push(Step::Init { target: a });
    steps.push(Step::Init { target: b });
    steps.push(Step::Scene { target: a, title: ">> Das Labor <<", text: "Write Rust!" });
    steps.push(Step::Flush { target: a });
    steps.push(Step::Scene { target: b, title: "\\o/ *woop woop* \\o/", text: "Party hard!" });
    steps.push(Step::Flush { target: b });
    extend(&mut steps, bring_up);
    steps.push(Step::Select { target: c });
    steps.push(Step::Clear { target: c, color: Color::Black });
    let splash1 = gfx_spi::splash(tft1);
    extend(&mut steps, &splash1);
    steps.push(Step::Select { target: d });
    steps.push(Step::Clear { target: d, color: Color::Black });
    let splash2 = gfx_spi::splash(tft2);
    extend(&mut steps, &splash2);
    steps.push(Step::Hold { millis: INTERLUDE_HOLD_MS });
    let splash3 = gfx::splash(d1, d2);
    extend(&mut steps, &splash3);
    steps.push(Step::Hold { millis: INTERLUDE_HOLD_MS });
    steps.push(Step::Scene { target: a, title: "GFX", text: "regines" });
    steps.push(Step::Flush { target: a });
    steps.push(Step::Scene { target: b, title: "code", text: "CyReVolt" });
    steps.push(Step::Flush { target: b });
    steps.push(Step::Hold { millis: CREDITS_HOLD_MS });
    assert(steps@ =~= startup_steps(a, b, c, d, bring_up@));
    steps
}

} // verus!
