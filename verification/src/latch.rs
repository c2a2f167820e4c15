//! The one-bit bridge from interrupt context to the main loop.
//!
//! An [`EventLatch`] remembers that a configured edge was seen on one input
//! pin. The interrupt handler is its only setter and the main loop its only
//! clearer. Every access is one whole method call, made by the caller with
//! interrupts masked, so the behaviour of the latch under any interleaving
//! of handler and loop is its behaviour on a sequence of [`LatchEvent`]s.

use vstd::prelude::*;

verus! {

/// A transition seen on an input pin.
#[derive(Clone, Copy, Debug, PartialEq, Eq, Structural)]
pub enum Edge {
    Rising,
    Falling,
}

/// Which transitions raise the interrupt of an input pin.
#[derive(Clone, Copy, Debug, PartialEq, Eq, Structural)]
pub enum Trigger {
    RisingEdge,
    FallingEdge,
    AnyEdge,
}

/// Bias resistor of an input pin.
#[derive(Clone, Copy, Debug, PartialEq, Eq, Structural)]
pub enum Pull {
    Up,
    Down,
    Floating,
}

impl Trigger {
    /// Whether this trigger reacts to `edge`.
    pub open spec fn spec_fires_on(self, edge: Edge) -> bool {
        match self {
            Trigger::RisingEdge => edge == Edge::Rising,
            Trigger::FallingEdge => edge == Edge::Falling,
            Trigger::AnyEdge => true,
        }
    }

    /// Whether this trigger reacts to `edge`.
    #[verifier::when_used_as_spec(spec_fires_on)]
    pub fn fires_on(self, edge: Edge) -> (r: bool)
        ensures
            r == self.spec_fires_on(edge),
    {
        match self {
            Trigger::RisingEdge => edge == Edge::Rising,
            Trigger::FallingEdge => edge == Edge::Falling,
            Trigger::AnyEdge => true,
        }
    }
}

/// Configuration of one monitored input.
#[derive(Clone, Copy, Debug, PartialEq, Eq, Structural)]
pub struct InputSource {
    pub pin: u8,
    pub trigger: Trigger,
    pub pull: Pull,
}

/// Everything a latch holds, as a mathematical value.
pub struct LatchState {
    pub source: InputSource,
    /// The interrupt of the pin is enabled.
    pub listening: bool,
    /// The next matching edge is the settling transient and is discarded.
    pub settling: bool,
    /// An event is pending.
    pub set: bool,
}

/// One atomic access to a latch.
pub enum LatchEvent {
    /// The loop enables the interrupt. `settled` tells whether the pin is
    /// known to rest at its idle level at that moment.
    Listen { settled: bool },
    /// The interrupt handler reports an edge on a pin.
    Edge { pin: u8, edge: Edge },
    /// The loop has dispatched the pending work.
    Clear,
}

impl LatchState {
    /// An edge on `pin` concerns this latch.
    pub open spec fn accepts(self, pin: u8, edge: Edge) -> bool {
        self.listening && pin == self.source.pin && self.source.trigger.spec_fires_on(edge)
    }

    /// The state after one access.
    pub open spec fn step(self, event: LatchEvent) -> LatchState {
        match event {
            LatchEvent::Listen { settled } => LatchState {
                listening: true,
                settling: !settled,
                ..self
            },
            LatchEvent::Edge { pin, edge } => if !self.accepts(pin, edge) {
                self
            } else if self.settling {
                LatchState { settling: false, ..self }
            } else {
                LatchState { set: true, ..self }
            },
            LatchEvent::Clear => LatchState { set: false, ..self },
        }
    }

    /// The state after a sequence of accesses, oldest first.
    pub open spec fn run(self, events: Seq<LatchEvent>) -> LatchState
        decreases events.len(),
    {
        if events.len() == 0 {
            self
        } else {
            self.run(events.drop_last()).step(events.last())
        }
    }

    /// Access `i` of `events` asks for the latch to be set: it is an edge
    /// that the latch accepts in the state it then has, and not the
    /// settling transient.
    pub open spec fn requests(self, events: Seq<LatchEvent>, i: int) -> bool {
        let before = self.run(events.take(i));
        &&& 0 <= i < events.len()
        &&& events[i] matches LatchEvent::Edge { pin, edge }
        &&& before.accepts(pin, edge)
        &&& !before.settling
    }

    /// No access after position `i` of `events` clears the latch.
    pub open spec fn unclear_after(events: Seq<LatchEvent>, i: int) -> bool {
        forall|j: int| i < j < events.len() ==> !(#[trigger] events[j] is Clear)
    }
}

/// Single-bit latch written from the interrupt handler and read and cleared
/// from the main loop.
#[derive(Debug)]
pub struct EventLatch {
    source: InputSource,
    listening: bool,
    settling: bool,
    set: bool,
}

impl View for EventLatch {
    type V = LatchState;

    closed spec fn view(&self) -> LatchState {
        LatchState {
            source: self.source,
            listening: self.listening,
            settling: self.settling,
            set: self.set,
        }
    }
}

impl EventLatch {
    /// A clear latch for `source`, whose interrupt is not yet enabled.
    pub fn new(source: InputSource) -> (latch: EventLatch)
        ensures
            latch@ == (LatchState { source, listening: false, settling: false, set: false }),
    {
        EventLatch { source, listening: false, settling: false, set: false }
    }

    /// Loop side: the interrupt of the pin is being enabled.
    ///
    /// Pass `settled = false` when the electrical state of the pin is not
    /// guaranteed at this moment. The first matching edge is then taken for
    /// the settling transient and does not set the latch.
    pub fn listen(&mut self, settled: bool)
        ensures
            final(self)@ == old(self)@.step(LatchEvent::Listen { settled }),
    {
        self.listening = true;
        self.settling = !settled;
    }

    /// Handler side: an edge was seen on `pin`. Returns whether this call
    /// took the latch from clear to set.
    pub fn signal(&mut self, pin: u8, edge: Edge) -> (raised: bool)
        ensures
            final(self)@ == old(self)@.step(LatchEvent::Edge { pin, edge }),
            raised == (!old(self)@.set && final(self)@.set),
    {
        if !self.listening || pin != self.source.pin || !self.source.trigger.fires_on(edge) {
            return false;
        }
        if self.settling {
            self.settling = false;
            return false;
        }
        let raised = !self.set;
        self.set = true;
        raised
    }

    /// Loop side: whether an event is pending. Does not change the latch.
    pub fn is_set(&self) -> (pending: bool)
        ensures
            pending == self@.set,
    {
        self.set
    }

    /// Loop side: the pending work has been dispatched.
    pub fn clear(&mut self)
        ensures
            final(self)@ == old(self)@.step(LatchEvent::Clear),
    {
        self.set = false;
    }

    /// The configuration this latch was made with.
    pub fn source(&self) -> (source: InputSource)
        ensures
            source == self@.source,
    {
        self.source
    }
}

/// The shared interrupt handler's duty list: the pins it monitors.
#[derive(Debug)]
pub struct InterruptBridge {
    monitored: Vec<u8>,
}

impl View for InterruptBridge {
    type V = Seq<u8>;

    closed spec fn view(&self) -> Seq<u8> {
        self.monitored@
    }
}

impl InterruptBridge {
    /// A bridge for the handler that monitors `pins`.
    pub fn new(pins: Vec<u8>) -> (bridge: InterruptBridge)
        ensures
            bridge@ == pins@,
    {
        InterruptBridge { monitored: pins }
    }

    /// Handler body for one interrupt caused by `edge` on `pin`.
    ///
    /// Returns the pins whose pending bit the handler must now clear in the
    /// peripheral: every monitored pin, in the order given at construction,
    /// whichever pin fired. The latch takes the edge as [`EventLatch::signal`]
    /// says. Nothing else is asked of the handler: no bus traffic, no
    /// drawing. Nothing is allocated.
    pub fn service<'a>(&'a self, latch: &mut EventLatch, pin: u8, edge: Edge) -> (acknowledge:
        &'a [u8])
        ensures
            acknowledge@ == self@,
            final(latch)@ == old(latch)@.step(LatchEvent::Edge { pin, edge }),
    {
        let _ = latch.signal(pin, edge);
        self.monitored.as_slice()
    }
}

/// Only a handler access sets a clear latch, and only the loop's `Clear`
/// clears a set one.
pub proof fn lemma_single_writer_per_direction(state: LatchState, event: LatchEvent)
    ensures
        !state.set && state.step(event).set ==> event is Edge,
        state.set && !state.step(event).set ==> event is Clear,
{
}

/// After any sequence of accesses the latch is set exactly when a request
/// is still outstanding: either it was set at the start and never cleared,
/// or some access requested it and no later access cleared it. No request
/// is lost and none is invented.
pub proof fn lemma_latch_tracks_requests(state: LatchState, events: Seq<LatchEvent>)
    ensures
        state.run(events).set <==> (state.set && LatchState::unclear_after(events, -1))
            || exists|i: int| #[trigger]
                state.requests(events, i) && LatchState::unclear_after(events, i),
    decreases events.len(),
{
    if events.len() == 0 {
        assert(forall|i: int| !#[trigger] state.requests(events, i));
    } else {
        let n = events.len() as int;
        let head = events.drop_last();
        let before = state.run(head);
        lemma_latch_tracks_requests(state, head);
        assert forall|i: int| 0 <= i < n - 1 implies #[trigger] state.requests(events, i)
            == state.requests(head, i) by {
            assert(head.take(i) == events.take(i));
        }
        assert(events.take(n - 1) == head);
        match events.last() {
            LatchEvent::Clear => {
                assert(events[n - 1] is Clear);
                assert(!LatchState::unclear_after(events, -1));
                assert forall|i: int| #[trigger]
                    state.requests(events, i) implies !LatchState::unclear_after(events, i) by {
                    assert(i < n - 1);
                }
            },
            _ => {
                assert forall|i: int| -1 <= i < n - 1 implies (#[trigger] LatchState::unclear_after(
                    events,
                    i,
                ) <==> LatchState::unclear_after(head, i)) by {
                    if LatchState::unclear_after(head, i) {
                        assert forall|j: int| i < j < events.len() implies !(#[trigger] events[j]
                            is Clear) by {
                            if j < n - 1 {
                                assert(head[j] == events[j]);
                            }
                        }
                    }
                    if LatchState::unclear_after(events, i) {
                        assert forall|j: int| i < j < head.len() implies !(#[trigger] head[j]
                            is Clear) by {
                            assert(head[j] == events[j]);
                        }
                    }
                }
                assert(LatchState::unclear_after(events, n - 1));
                if state.run(events).set {
                    if before.set {
                        if state.set && LatchState::unclear_after(head, -1) {
                        } else {
                            let i = choose|i: int| #[trigger]
                                state.requests(head, i) && LatchState::unclear_after(head, i);
                            assert(state.requests(events, i) && LatchState::unclear_after(
                                events,
                                i,
                            ));
                        }
                    } else {
                        assert(state.requests(events, n - 1));
                    }
                } else {
                    assert(!before.set);
                    assert(!state.requests(events, n - 1));
                    assert forall|i: int| #[trigger]
                        state.requests(events, i) implies !LatchState::unclear_after(events, i) by {
                        if i < n - 1 {
                            assert(state.requests(head, i));
                        }
                    }
                }
            },
        }
    }
}

} // verus!
