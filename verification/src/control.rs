//! The control loop's decisions.
//!
//! The loop waits for a falling edge of the button, shows a colour, steps
//! the cycle and then sleeps through a guard interval in which it hears no
//! edge. Here that is one function from a state and an event to the next
//! state and an action. The task that owns a [`ControlLoop`] does the waiting
//! and the writing: it hands in each edge with the time at which it fell, and
//! carries out what comes back.

use crate::indicator::LedColor;
use crate::pwm::RgbOutputs;
use vstd::prelude::*;

verus! {

/// Length of the guard interval after an edge that was acted on, in
/// milliseconds.
pub const GUARD_MS: u64 = 100;

/// What the task reports to the control loop.
#[derive(Clone, Copy, PartialEq, Eq, Debug, Structural)]
pub enum Event {
    /// The button line fell, `at_ms` milliseconds after power-on.
    Edge { at_ms: u64 },
    /// A write to a peripheral failed.
    WriteFailed,
}

/// What the task does next.
#[derive(Clone, Copy, PartialEq, Eq, Debug, Structural)]
pub enum Action {
    /// Write `outputs` to the three PWM slices, then sleep for `guard_ms`
    /// milliseconds before waiting for the next edge.
    Drive { outputs: RgbOutputs, guard_ms: u64 },
    /// Nothing changed: go on waiting for an edge.
    Listen,
    /// Stop every task, for good.
    Halt,
}

/// What the control loop knows between two events.
#[derive(Clone, Copy, PartialEq, Eq, Debug)]
pub struct ControlState {
    /// The colour that the next edge will show.
    pub color: LedColor,
    /// The settings last written to the PWM slices.
    pub outputs: RgbOutputs,
    /// Time of the last edge that was acted on, if there was one.
    pub last_edge: Option<u64>,
    /// Whether a peripheral has failed.
    pub halted: bool,
}

impl ControlState {
    /// The state at power-on: the cycle at its start, the indicator red, no
    /// edge seen.
    pub open spec fn power_on() -> ControlState {
        ControlState {
            color: LedColor::Red,
            outputs: RgbOutputs::solid(LedColor::Red),
            last_edge: None,
            halted: false,
        }
    }

    /// The colour that the indicator shows: red until the first edge, and
    /// from then on the colour in which the last edge found the cycle.
    pub open spec fn shown(self) -> LedColor {
        if self.last_edge is None {
            LedColor::Red
        } else {
            self.color.predecessor()
        }
    }

    /// The cycle has not moved before the first edge, and the outputs show
    /// one colour.
    pub open spec fn wf(self) -> bool {
        &&& self.last_edge is None ==> self.color == LedColor::Red
        &&& self.outputs == RgbOutputs::solid(self.shown())
    }

    /// Whether an edge at `at_ms` is acted on: the loop has not halted, and
    /// the guard interval of the last edge acted on is over.
    pub open spec fn qualifies(self, at_ms: u64) -> bool {
        &&& !self.halted
        &&& match self.last_edge {
            None => true,
            Some(last) => at_ms - last >= GUARD_MS,
        }
    }

    /// Whether `event` moves the cycle.
    pub open spec fn moves(self, event: Event) -> bool {
        match event {
            Event::Edge { at_ms } => self.qualifies(at_ms),
            Event::WriteFailed => false,
        }
    }

    /// The state after `event`.
    pub open spec fn after(self, event: Event) -> ControlState {
        match event {
            Event::Edge { at_ms } => if self.qualifies(at_ms) {
                ControlState {
                    color: self.color.successor(),
                    outputs: self.outputs.showing(self.color),
                    last_edge: Some(at_ms),
                    halted: false,
                }
            } else {
                self
            },
            Event::WriteFailed => ControlState { halted: true, ..self },
        }
    }

    /// What the task is told to do on `event`.
    pub open spec fn action(self, event: Event) -> Action {
        if self.halted {
            Action::Halt
        } else {
            match event {
                Event::Edge { at_ms } => if self.qualifies(at_ms) {
                    Action::Drive { outputs: self.outputs.showing(self.color), guard_ms: GUARD_MS }
                } else {
                    Action::Listen
                },
                Event::WriteFailed => Action::Halt,
            }
        }
    }

    /// The state after `events`, one by one.
    pub open spec fn run(self, events: Seq<Event>) -> ControlState
        decreases events.len(),
    {
        if events.len() == 0 {
            self
        } else {
            self.run(events.drop_last()).after(events.last())
        }
    }

    /// How many of `events` move the cycle.
    pub open spec fn transitions(self, events: Seq<Event>) -> nat
        decreases events.len(),
    {
        if events.len() == 0 {
            0
        } else {
            let before = self.transitions(events.drop_last());
            if self.run(events.drop_last()).moves(events.last()) {
                before + 1
            } else {
                before
            }
        }
    }
}

/// The control loop of the front panel. Its state is its own: nothing but
/// [`ControlLoop::handle`] changes it.
#[derive(Clone, Copy, Debug)]
pub struct ControlLoop {
    state: ControlState,
}

impl View for ControlLoop {
    type V = ControlState;

    closed spec fn view(&self) -> ControlState {
        self.state
    }
}

impl ControlLoop {
    /// Every control loop is in a well-formed state.
    #[verifier::type_invariant]
    spec fn inv(self) -> bool {
        self.state.wf()
    }

    /// The control loop at power-on.
    pub fn power_on() -> (control: ControlLoop)
        ensures
            control@ == ControlState::power_on(),
            control@.wf(),
    {
        ControlLoop {
            state: ControlState {
                color: LedColor::first(),
                outputs: RgbOutputs::for_color(LedColor::Red),
                last_edge: None,
                halted: false,
            },
        }
    }

    /// Takes one event and says what to do.
    ///
    /// An edge outside the guard interval shows the colour that the cycle
    /// is at, steps the cycle and starts a new guard interval. An edge
    /// inside it changes nothing. A failed write halts the loop, and a
    /// halted loop answers every event with `Halt`.
    pub fn handle(&mut self, event: Event) -> (action: Action)
        ensures
            final(self)@ == old(self)@.after(event),
            action == old(self)@.action(event),
            old(self)@.wf(),
            final(self)@.wf(),
    {
        proof {
            use_type_invariant(&*self);
        }
        if self.state.halted {
            return Action::Halt;
        }
        match event {
            Event::WriteFailed => {
                self.state = ControlState { halted: true, ..self.state };
                Action::Halt
            },
            Event::Edge { at_ms } => {
                let listening = match self.state.last_edge {
                    None => true,
                    Some(last) => at_ms >= last && at_ms - last >= GUARD_MS,
                };
                if listening {
                    let current = self.state.color;
                    let mut outputs = self.state.outputs;
                    outputs.show(current);
                    self.state = ControlState {
                        color: current.next(),
                        outputs,
                        last_edge: Some(at_ms),
                        halted: false,
                    };
                    Action::Drive { outputs, guard_ms: GUARD_MS }
                } else {
                    Action::Listen
                }
            },
        }
    }

    /// Takes `events` one by one, as [`ControlLoop::handle`] does, and
    /// returns how many of them moved the cycle.
    pub fn replay(&mut self, events: &Vec<Event>) -> (transitions: usize)
        ensures
            final(self)@ == old(self)@.run(events@),
            transitions == old(self)@.transitions(events@),
            old(self)@.wf(),
            final(self)@.wf(),
    {
        proof {
            use_type_invariant(&*self);
        }
        let mut transitions: usize = 0;
        let mut i: usize = 0;
        assert(events@.take(0) =~= Seq::<Event>::empty());
        while i < events.len()
            invariant
                i <= events.len(),
                transitions <= i,
                self@ == old(self)@.run(events@.take(i as int)),
                transitions == old(self)@.transitions(events@.take(i as int)),
                self@.wf(),
            decreases events.len() - i,
        {
            let event = events[i];
            assert(events@.take(i + 1).drop_last() =~= events@.take(i as int));
            assert(events@.take(i + 1).last() == event);
            let action = self.handle(event);
            match action {
                Action::Drive { .. } => {
                    transitions = transitions + 1;
                },
                _ => {},
            }
            i = i + 1;
        }
        assert(events@.take(events.len() as int) =~= events@);
        transitions
    }

    /// The whole state.
    pub fn state(&self) -> (state: ControlState)
        ensures
            state == self@,
            state.wf(),
    {
        proof {
            use_type_invariant(self);
        }
        self.state
    }

    /// The colour that the next edge will show.
    pub fn color(&self) -> (color: LedColor)
        ensures
            color == self@.color,
    {
        self.state.color
    }

    /// The colour that the indicator shows.
    pub fn shown(&self) -> (color: LedColor)
        ensures
            color == self@.shown(),
            self@.outputs == RgbOutputs::solid(color),
    {
        proof {
            use_type_invariant(self);
        }
        match self.state.last_edge {
            None => LedColor::Red,
            Some(_) => self.state.color.previous(),
        }
    }

    /// The settings last handed out for the PWM slices.
    pub fn outputs(&self) -> (outputs: RgbOutputs)
        ensures
            outputs == self@.outputs,
            outputs == RgbOutputs::solid(self@.shown()),
    {
        proof {
            use_type_invariant(self);
        }
        self.state.outputs
    }

    /// Whether the loop has halted.
    pub fn is_halted(&self) -> (halted: bool)
        ensures
            halted == self@.halted,
    {
        self.state.halted
    }
}

/// Whatever the events, a state that was well formed stays so: at every
/// moment the outputs show one colour of the cycle, the one that
/// [`ControlState::shown`] names.
pub proof fn lemma_run_keeps_wf(state: ControlState, events: Seq<Event>)
    requires
        state.wf(),
    ensures
        state.run(events).wf(),
        state.run(events).outputs == RgbOutputs::solid(state.run(events).shown()),
    decreases events.len(),
{
    if events.len() > 0 {
        lemma_run_keeps_wf(state, events.drop_last());
    }
}

/// While the indicator shows red or blue, one hue is at full duty and the
/// other two are at none.
pub proof fn lemma_one_hue_at_a_time(state: ControlState, events: Seq<Event>)
    requires
        state.wf(),
        state.run(events).shown() != LedColor::Yellow,
    ensures
        state.run(events).outputs.lit_hues() == 1,
        state.run(events).outputs.dark_hues() == 2,
{
    lemma_run_keeps_wf(state, events);
}

/// Whatever the indicator shows, no hue is dimmed: each is at full duty or
/// at none, and at least one is lit.
pub proof fn lemma_never_dimmed(state: ControlState, events: Seq<Event>)
    requires
        state.wf(),
    ensures
        state.run(events).outputs.wf(),
        state.run(events).outputs.lit_hues() + state.run(events).outputs.dark_hues() == 3,
        state.run(events).outputs.lit_hues() >= 1,
{
    lemma_run_keeps_wf(state, events);
}

/// After any events, the cycle stands as many steps from where it began as
/// there were edges acted on. From power-on that is the colour at the place
/// given by their number modulo 3.
pub proof fn lemma_color_counts_edges(state: ControlState, events: Seq<Event>)
    ensures
        state.run(events).color == state.color.advanced(state.transitions(events)),
        state.run(events).color.position() == (state.color.position() + state.transitions(
            events,
        )) % 3,
        state.color == LedColor::Red ==> state.run(events).color == LedColor::at(
            state.transitions(events),
        ),
        state.transitions(events) <= events.len(),
    decreases events.len(),
{
    if events.len() > 0 {
        lemma_color_counts_edges(state, events.drop_last());
    }
}

/// The edge that falls at `at_ms`.
pub open spec fn edge(at_ms: u64) -> Event {
    Event::Edge { at_ms }
}

/// Two edges in a row.
pub open spec fn edges(first_ms: u64, second_ms: u64) -> Seq<Event> {
    seq![edge(first_ms), edge(second_ms)]
}

/// Whether `event` is an edge that falls less than `GUARD_MS` after
/// `first_ms`.
pub open spec fn bounces(first_ms: u64, event: Event) -> bool {
    match event {
        Event::Edge { at_ms } => at_ms - first_ms < GUARD_MS,
        Event::WriteFailed => false,
    }
}

/// Whether `events` are all edges that fall less than `GUARD_MS` after
/// `first_ms`.
pub open spec fn inside_guard(first_ms: u64, events: Seq<Event>) -> bool {
    forall|i: int| 0 <= i < events.len() ==> bounces(first_ms, #[trigger] events[i])
}

/// Of two edges, the first of which is acted on, the second is acted on as
/// well where it falls `GUARD_MS` or more after the first, and changes
/// nothing where it falls earlier.
pub proof fn lemma_guard_interval(state: ControlState, first_ms: u64, second_ms: u64)
    requires
        state.qualifies(first_ms),
    ensures
        second_ms - first_ms < GUARD_MS ==> state.transitions(edges(first_ms, second_ms)) == 1,
        second_ms - first_ms < GUARD_MS ==> state.run(edges(first_ms, second_ms)) == state.after(
            edge(first_ms),
        ),
        second_ms - first_ms < GUARD_MS ==> state.run(edges(first_ms, second_ms)).color
            == state.color.successor(),
        second_ms - first_ms >= GUARD_MS ==> state.transitions(edges(first_ms, second_ms)) == 2,
        second_ms - first_ms >= GUARD_MS ==> state.run(edges(first_ms, second_ms)).color
            == state.color.successor().successor(),
{
    let both = edges(first_ms, second_ms);
    let one = seq![edge(first_ms)];
    assert(both.drop_last() =~= one);
    assert(one.drop_last() =~= Seq::<Event>::empty());
    assert(state.run(one.drop_last()) == state);
    assert(state.transitions(one.drop_last()) == 0);
    assert(one.last() == edge(first_ms));
    assert(state.run(one) == state.after(edge(first_ms)));
    assert(state.transitions(one) == 1);
}

/// However many edges fall inside the guard interval of an edge that was
/// acted on, none of them changes anything.
pub proof fn lemma_edges_inside_guard_ignored(
    state: ControlState,
    first_ms: u64,
    later: Seq<Event>,
)
    requires
        state.qualifies(first_ms),
        inside_guard(first_ms, later),
    ensures
        state.after(edge(first_ms)).run(later) == state.after(edge(first_ms)),
        state.after(edge(first_ms)).transitions(later) == 0,
    decreases later.len(),
{
    if later.len() > 0 {
        assert forall|i: int| 0 <= i < later.drop_last().len() implies bounces(
            first_ms,
            #[trigger] later.drop_last()[i],
        ) by {
            assert(later.drop_last()[i] == later[i]);
        }
        lemma_edges_inside_guard_ignored(state, first_ms, later.drop_last());
        assert(bounces(first_ms, later[later.len() - 1]));
    }
}

/// A halted loop stays as it is: no event moves the cycle or changes the
/// outputs, and every answer is `Halt`.
pub proof fn lemma_halt_is_final(state: ControlState, events: Seq<Event>, next: Event)
    requires
        state.halted,
    ensures
        state.run(events) == state,
        state.transitions(events) == 0,
        state.run(events).action(next) == Action::Halt,
    decreases events.len(),
{
    if events.len() > 0 {
        lemma_halt_is_final(state, events.drop_last(), next);
    }
}

/// A failed write halts the loop whatever state it was in.
pub proof fn lemma_failed_write_halts(state: ControlState, events: Seq<Event>, next: Event)
    ensures
        state.after(Event::WriteFailed).halted,
        state.action(Event::WriteFailed) == Action::Halt,
        state.after(Event::WriteFailed).run(events).color == state.color,
        state.after(Event::WriteFailed).run(events).outputs == state.outputs,
        state.after(Event::WriteFailed).transitions(events) == 0,
        state.after(Event::WriteFailed).run(events).action(next) == Action::Halt,
{
    lemma_halt_is_final(state.after(Event::WriteFailed), events, next);
}

} // verus!
