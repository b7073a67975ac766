//! Touch acquisition and input dispatch: the controller bring-up decisions,
//! the remapping of raw samples into display coordinates, and the two-state
//! machine that turns successive polls into an ordered pointer-event stream.
//!
//! The controller reports in its native portrait space; the display runs
//! landscape, so a sample's axes are swapped, one axis inverted, and the
//! result clamped to the display bounds.  The dispatcher is a pure function
//! of the poll outcome and the current state; the hardware read itself stays
//! with the embedder, which hands every outcome — sample, no finger, not
//! ready, bus error — back in as a [`PollResult`].

use vstd::prelude::*;

use crate::platform::{DISPLAY_HEIGHT, DISPLAY_WIDTH};

verus! {

/// Whether a finger is currently down; the only state carried between polls.
#[derive(Clone, Copy, Debug, PartialEq, Eq, Structural)]
pub enum TouchState {
    Released,
    Pressed,
}

/// A point in logical display coordinates.
#[derive(Clone, Copy, Debug, PartialEq, Eq, Structural)]
pub struct Position {
    pub x: u32,
    pub y: u32,
}

/// The outcome of one controller poll.  Touch acquisition remaps a raw
/// reading into display coordinates (see [`remap_touch`]) before it reaches
/// the dispatcher, so a sample here is already normalized.
#[derive(Clone, Copy, Debug, PartialEq, Eq, Structural)]
pub enum PollResult {
    /// A finger is present at the given display position.
    Sample { position: Position },
    /// The controller answered: no finger.
    Empty,
    /// No new data this cycle; silently retried next poll, not an error.
    NotReady,
    /// A genuine bus error; counted, and treated as no sample for this poll.
    BusError,
}

/// A pointer event delivered to the shared window handle.
#[derive(Clone, Copy, Debug, PartialEq, Eq, Structural)]
pub enum PointerEvent {
    Pressed { position: Position },
    Moved { position: Position },
    Released { position: Position },
    Exited,
}

/// Native-to-display remapping: swap the axes, invert one, clamp to bounds.
/// `display_x = min(raw_y, width - 1)`; `display_y = height - 1 - raw_x`,
/// saturated at zero.
pub open spec fn spec_remap(raw_x: u16, raw_y: u16) -> Position {
    Position {
        x: if (raw_y as u32) < DISPLAY_WIDTH {
            raw_y as u32
        } else {
            (DISPLAY_WIDTH - 1) as u32
        },
        y: if (raw_x as u32) < DISPLAY_HEIGHT {
            (DISPLAY_HEIGHT - 1 - raw_x) as u32
        } else {
            0u32
        },
    }
}

/// Remap one raw sample into display coordinates.
pub fn remap_touch(raw_x: u16, raw_y: u16) -> (p: Position)
    ensures
        p == spec_remap(raw_x, raw_y),
{
    let x: u32 = if (raw_y as u32) < DISPLAY_WIDTH {
        raw_y as u32
    } else {
        DISPLAY_WIDTH - 1
    };
    let y: u32 = if (raw_x as u32) < DISPLAY_HEIGHT {
        DISPLAY_HEIGHT - 1 - (raw_x as u32)
    } else {
        0
    };
    Position { x, y }
}

/// Wherever the controller puts a raw sample — inside its native bounds or
/// not — the remapped coordinate lies inside the logical display.
pub proof fn lemma_remap_in_display_bounds(raw_x: u16, raw_y: u16)
    ensures
        spec_remap(raw_x, raw_y).x < DISPLAY_WIDTH,
        spec_remap(raw_x, raw_y).y < DISPLAY_HEIGHT,
{
}

/// The state after one poll: a sample means a finger is down, an explicit
/// "no finger" lifts it, and "not ready" or a bus error leaves the state
/// alone.
pub open spec fn step_state(state: TouchState, poll: PollResult) -> TouchState {
    match poll {
        PollResult::Sample { .. } => TouchState::Pressed,
        PollResult::Empty => TouchState::Released,
        PollResult::NotReady => state,
        PollResult::BusError => state,
    }
}

/// The last known position after one poll: updated by every sample, kept
/// otherwise.
pub open spec fn step_last(state: TouchState, last: Position, poll: PollResult) -> Position {
    match poll {
        PollResult::Sample { position } => position,
        _ => last,
    }
}

/// The events one poll emits.  A fresh sample presses; a repeated sample
/// moves; losing the finger releases and exits as a pair at the last known
/// position; "not ready" and bus errors emit nothing.
pub open spec fn step_events(state: TouchState, last: Position, poll: PollResult) -> Seq<
    PointerEvent,
> {
    match poll {
        PollResult::Sample { position } => {
            if state is Released {
                seq![PointerEvent::Pressed { position }]
            } else {
                seq![PointerEvent::Moved { position }]
            }
        },
        PollResult::Empty => {
            if state is Pressed {
                seq![PointerEvent::Released { position: last }, PointerEvent::Exited]
            } else {
                Seq::empty()
            }
        },
        _ => Seq::empty(),
    }
}

/// Wrap-around counter increment.
pub open spec fn wrap_inc(n: u32) -> u32 {
    if n < u32::MAX {
        (n + 1) as u32
    } else {
        0u32
    }
}

/// The input dispatcher: turns poll outcomes into pointer events, keeping the
/// press state, the last known position, and diagnostic counters.
pub struct InputDispatcher {
    state: TouchState,
    last_position: Position,
    poll_count: u32,
    not_ready_count: u32,
    touch_count: u32,
    error_count: u32,
}

impl InputDispatcher {
    pub closed spec fn spec_state(self) -> TouchState {
        self.state
    }

    pub closed spec fn spec_last_position(self) -> Position {
        self.last_position
    }

    pub closed spec fn spec_poll_count(self) -> u32 {
        self.poll_count
    }

    pub closed spec fn spec_not_ready_count(self) -> u32 {
        self.not_ready_count
    }

    pub closed spec fn spec_touch_count(self) -> u32 {
        self.touch_count
    }

    pub closed spec fn spec_error_count(self) -> u32 {
        self.error_count
    }

    /// A fresh dispatcher: released, at the origin, all counters zero.
    pub fn new() -> (d: InputDispatcher)
        ensures
            d.spec_state() == TouchState::Released,
            (d.spec_last_position() == Position { x: 0u32, y: 0u32 }),
            d.spec_poll_count() == 0,
            d.spec_not_ready_count() == 0,
            d.spec_touch_count() == 0,
            d.spec_error_count() == 0,
    {
        InputDispatcher {
            state: TouchState::Released,
            last_position: Position { x: 0, y: 0 },
            poll_count: 0,
            not_ready_count: 0,
            touch_count: 0,
            error_count: 0,
        }
    }

    /// Whether a finger is currently down.
    pub fn state(&self) -> (s: TouchState)
        ensures
            s == self.spec_state(),
    {
        self.state
    }

    /// The position of the most recent sample; lift events reuse it, since
    /// no position accompanies a lift.
    pub fn last_position(&self) -> (p: Position)
        ensures
            p == self.spec_last_position(),
    {
        self.last_position
    }

    /// How many polls have been fed in.
    pub fn poll_count(&self) -> (n: u32)
        ensures
            n == self.spec_poll_count(),
    {
        self.poll_count
    }

    /// How many polls carried a sample.
    pub fn touch_count(&self) -> (n: u32)
        ensures
            n == self.spec_touch_count(),
    {
        self.touch_count
    }

    /// How many polls found no new data.
    pub fn not_ready_count(&self) -> (n: u32)
        ensures
            n == self.spec_not_ready_count(),
    {
        self.not_ready_count
    }

    /// How many polls failed with a bus error.
    pub fn error_count(&self) -> (n: u32)
        ensures
            n == self.spec_error_count(),
    {
        self.error_count
    }

    /// Feed one poll outcome through the state machine; the returned events
    /// are dispatched to the window handle in order.
    pub fn dispatch(&mut self, poll: PollResult) -> (events: Vec<PointerEvent>)
        ensures
            events@ == step_events(old(self).spec_state(), old(self).spec_last_position(), poll),
            final(self).spec_state() == step_state(old(self).spec_state(), poll),
            final(self).spec_last_position() == step_last(
                old(self).spec_state(),
                old(self).spec_last_position(),
                poll,
            ),
            final(self).spec_poll_count() == wrap_inc(old(self).spec_poll_count()),
            final(self).spec_touch_count() == (if poll is Sample {
                wrap_inc(old(self).spec_touch_count())
            } else {
                old(self).spec_touch_count()
            }),
            final(self).spec_not_ready_count() == (if poll is NotReady {
                wrap_inc(old(self).spec_not_ready_count())
            } else {
                old(self).spec_not_ready_count()
            }),
            final(self).spec_error_count() == (if poll is BusError {
                wrap_inc(old(self).spec_error_count())
            } else {
                old(self).spec_error_count()
            }),
    {
        self.poll_count = self.poll_count.wrapping_add(1);
        let mut events: Vec<PointerEvent> = Vec::new();
        match poll {
            PollResult::Sample { position } => {
                self.touch_count = self.touch_count.wrapping_add(1);
                self.last_position = position;
                match self.state {
                    TouchState::Released => {
                        events.push(PointerEvent::Pressed { position });
                        self.state = TouchState::Pressed;
                    },
                    TouchState::Pressed => {
                        events.push(PointerEvent::Moved { position });
                    },
                }
            },
            PollResult::Empty => {
                if matches!(self.state, TouchState::Pressed) {
                    events.push(PointerEvent::Released { position: self.last_position });
                    events.push(PointerEvent::Exited);
                    self.state = TouchState::Released;
                }
            },
            PollResult::NotReady => {
                self.not_ready_count = self.not_ready_count.wrapping_add(1);
            },
            PollResult::BusError => {
                self.error_count = self.error_count.wrapping_add(1);
            },
        }
        proof {
            assert(events@ =~= step_events(
                old(self).spec_state(),
                old(self).spec_last_position(),
                poll,
            ));
        }
        events
    }
}

/// Every event the dispatcher emits over a whole poll sequence, in order,
/// starting from the given state and last position.
pub open spec fn run_events(
    state: TouchState,
    last: Position,
    polls: Seq<PollResult>,
) -> Seq<PointerEvent>
    decreases polls.len(),
{
    if polls.len() == 0 {
        Seq::empty()
    } else {
        step_events(state, last, polls[0]) + run_events(
            step_state(state, polls[0]),
            step_last(state, last, polls[0]),
            polls.drop_first(),
        )
    }
}

/// The events that change the press state: `Pressed`, and the `Released`
/// that always heads a `Released`/`Exited` pair.
pub open spec fn is_transition(e: PointerEvent) -> bool {
    e is Pressed || e is Released
}

/// The subsequence of transition events.
pub open spec fn transitions_of(events: Seq<PointerEvent>) -> Seq<PointerEvent>
    decreases events.len(),
{
    if events.len() == 0 {
        Seq::empty()
    } else {
        (if is_transition(events[0]) {
            seq![events[0]]
        } else {
            Seq::empty()
        }) + transitions_of(events.drop_first())
    }
}

proof fn lemma_transitions_concat(a: Seq<PointerEvent>, b: Seq<PointerEvent>)
    ensures
        transitions_of(a + b) == transitions_of(a) + transitions_of(b),
    decreases a.len(),
{
    if a.len() == 0 {
        assert(a + b =~= b);
        assert(transitions_of(a) + transitions_of(b) =~= transitions_of(b));
    } else {
        assert((a + b).drop_first() =~= a.drop_first() + b);
        lemma_transitions_concat(a.drop_first(), b);
        let head = if is_transition(a[0]) {
            seq![a[0]]
        } else {
            Seq::<PointerEvent>::empty()
        };
        assert((a + b)[0] == a[0]);
        assert(transitions_of(a + b) == head + (transitions_of(a.drop_first()) + transitions_of(
            b,
        )));
        assert(head + (transitions_of(a.drop_first()) + transitions_of(b)) =~= (head
            + transitions_of(a.drop_first())) + transitions_of(b));
    }
}

/// The expected parity: in a transition stream that starts from `state`, the
/// event at even positions is `Pressed` when the machine starts released, at
/// odd positions otherwise.
pub open spec fn alternates_from(state: TouchState, ts: Seq<PointerEvent>) -> bool {
    forall|i: int|
        0 <= i < ts.len() ==> ((#[trigger] ts[i]) is Pressed <==> i % 2 == (
        if state is Released {
            0int
        } else {
            1int
        }))
}

/// The state machine is strictly alternating: over any poll sequence, the
/// dispatcher never emits two `Pressed` events, nor two `Released`/`Exited`
/// pairs, without the opposite transition in between — the transition events
/// alternate strictly, beginning with the transition that leaves the starting
/// state.
pub proof fn lemma_strict_alternation(state: TouchState, last: Position, polls: Seq<PollResult>)
    ensures
        alternates_from(state, transitions_of(run_events(state, last, polls))),
    decreases polls.len(),
{
    reveal_with_fuel(transitions_of, 4);
    if polls.len() == 0 {
        assert(transitions_of(run_events(state, last, polls)).len() == 0);
    } else {
        let head = step_events(state, last, polls[0]);
        let s2 = step_state(state, polls[0]);
        let l2 = step_last(state, last, polls[0]);
        let rest = run_events(s2, l2, polls.drop_first());
        lemma_strict_alternation(s2, l2, polls.drop_first());
        lemma_transitions_concat(head, rest);
        let th = transitions_of(head);
        let tr = transitions_of(rest);
        assert(transitions_of(run_events(state, last, polls)) == th + tr);
        match polls[0] {
            PollResult::Sample { position } => {
                let p = position;
                if state is Released {
                    assert(head =~= seq![PointerEvent::Pressed { position: p }]);
                    assert(head.drop_first() =~= Seq::<PointerEvent>::empty());
                    assert(th =~= seq![PointerEvent::Pressed { position: p }]);
                } else {
                    assert(head =~= seq![PointerEvent::Moved { position: p }]);
                    assert(head.drop_first() =~= Seq::<PointerEvent>::empty());
                    assert(th =~= Seq::<PointerEvent>::empty());
                }
            },
            PollResult::Empty => {
                if state is Pressed {
                    assert(head =~= seq![
                        PointerEvent::Released { position: last },
                        PointerEvent::Exited,
                    ]);
                    assert(head.drop_first() =~= seq![PointerEvent::Exited]);
                    assert(head.drop_first().drop_first() =~= Seq::<PointerEvent>::empty());
                    assert(transitions_of(head.drop_first()) =~= Seq::<PointerEvent>::empty());
                    assert(th =~= seq![PointerEvent::Released { position: last }]);
                } else {
                    assert(head =~= Seq::<PointerEvent>::empty());
                    assert(th =~= Seq::<PointerEvent>::empty());
                }
            },
            PollResult::NotReady => {
                assert(head =~= Seq::<PointerEvent>::empty());
                assert(th =~= Seq::<PointerEvent>::empty());
            },
            PollResult::BusError => {
                assert(head =~= Seq::<PointerEvent>::empty());
                assert(th =~= Seq::<PointerEvent>::empty());
            },
        }
        assert forall|i: int| 0 <= i < (th + tr).len() implies ((#[trigger] (th + tr)[i])
            is Pressed <==> i % 2 == (
        if state is Released {
            0int
        } else {
            1int
        })) by {
            if i >= th.len() {
                assert((th + tr)[i] == tr[i - th.len()]);
            }
        }
    }
}

/// Corollary in plain terms: no two `Pressed` events, and no two
/// `Released`/`Exited` pairs, are ever adjacent in the transition stream —
/// each transition is followed, if by anything, by its opposite.
pub proof fn lemma_no_repeated_transition(state: TouchState, last: Position, polls: Seq<PollResult>)
    ensures
        forall|i: int|
            0 <= i && i + 1 < transitions_of(run_events(state, last, polls)).len() ==> ((
            #[trigger] transitions_of(run_events(state, last, polls))[i]) is Pressed
                <==> !(transitions_of(run_events(state, last, polls))[i + 1] is Pressed)),
{
    lemma_strict_alternation(state, last, polls);
}

/// Controller address latched when the interrupt line is held low through
/// reset; tried first.
pub const TOUCH_ADDR_PRIMARY: u8 = 0x5D;

/// Controller address latched when the interrupt line floats high during
/// power-up — a strapping-pin race outside this code's control can leave the
/// controller there, so it is tried second.
pub const TOUCH_ADDR_SECONDARY: u8 = 0x14;

/// The addresses the bring-up scan tries, in order.
pub open spec fn scan_candidates() -> Seq<u8> {
    seq![TOUCH_ADDR_PRIMARY, TOUCH_ADDR_SECONDARY]
}

/// Fixed timings and bus rate for the one-time controller bring-up: hold
/// reset low, release it with the address latched, wait out the boot delay,
/// then talk at standard (not fast) bus speed for reliability with weak
/// pull-ups.
#[derive(Clone, Copy, Debug, PartialEq, Eq, Structural)]
pub struct TouchBringUpConfig {
    pub reset_low_ms: u32,
    pub address_latch_ms: u32,
    pub boot_delay_ms: u32,
    pub i2c_baudrate_hz: u32,
}

/// The bring-up parameters for the badge's touch controller.
pub fn touch_bring_up_config() -> (c: TouchBringUpConfig)
    ensures
        (c == TouchBringUpConfig {
            reset_low_ms: 20u32,
            address_latch_ms: 5u32,
            boot_delay_ms: 100u32,
            i2c_baudrate_hz: 100_000u32,
        }),
{
    TouchBringUpConfig {
        reset_low_ms: 20,
        address_latch_ms: 5,
        boot_delay_ms: 100,
        i2c_baudrate_hz: 100_000,
    }
}

/// The address-resolution step of controller bring-up: try each candidate
/// address in order and keep the first that answers.  The embedder performs
/// the protocol initialization at each candidate and reports the outcome;
/// exhausting every candidate is the fatal bring-up failure.
pub struct AddressScan {
    attempts: u8,
    resolved: Option<u8>,
}

impl AddressScan {
    /// How many candidates have failed so far.
    pub closed spec fn spec_attempts(self) -> int {
        self.attempts as int
    }

    /// The address that answered, if one has.
    pub closed spec fn spec_resolved(self) -> Option<u8> {
        self.resolved
    }

    pub open spec fn wf(self) -> bool {
        &&& 0 <= self.spec_attempts() <= scan_candidates().len()
        &&& match self.spec_resolved() {
            Some(addr) => {
                &&& self.spec_attempts() < scan_candidates().len()
                &&& addr == scan_candidates()[self.spec_attempts()]
            },
            None => true,
        }
    }

    /// Start a scan at the primary address.
    pub fn new() -> (scan: AddressScan)
        ensures
            scan.wf(),
            scan.spec_attempts() == 0,
            scan.spec_resolved() is None,
    {
        AddressScan { attempts: 0, resolved: None }
    }

    /// The next address to try, or `None` once an address answered or every
    /// candidate failed.
    pub fn candidate(&self) -> (addr: Option<u8>)
        requires
            self.wf(),
        ensures
            match addr {
                Some(a) => {
                    &&& self.spec_resolved() is None
                    &&& self.spec_attempts() < scan_candidates().len()
                    &&& a == scan_candidates()[self.spec_attempts()]
                },
                None => self.spec_resolved() is Some || self.spec_attempts()
                    == scan_candidates().len(),
            },
    {
        if self.resolved.is_some() {
            None
        } else if self.attempts == 0 {
            Some(TOUCH_ADDR_PRIMARY)
        } else if self.attempts == 1 {
            Some(TOUCH_ADDR_SECONDARY)
        } else {
            None
        }
    }

    /// The current candidate did not answer; move to the next.
    pub fn record_failure(&mut self)
        requires
            old(self).wf(),
            old(self).spec_resolved() is None,
            old(self).spec_attempts() < scan_candidates().len(),
        ensures
            final(self).wf(),
            final(self).spec_attempts() == old(self).spec_attempts() + 1,
            final(self).spec_resolved() is None,
    {
        self.attempts += 1;
    }

    /// The current candidate answered; the scan is bound to it.
    pub fn record_success(&mut self)
        requires
            old(self).wf(),
            old(self).spec_resolved() is None,
            old(self).spec_attempts() < scan_candidates().len(),
        ensures
            final(self).wf(),
            final(self).spec_attempts() == old(self).spec_attempts(),
            final(self).spec_resolved() == Some(
                scan_candidates()[old(self).spec_attempts()] as u8,
            ),
    {
        let addr = if self.attempts == 0 {
            TOUCH_ADDR_PRIMARY
        } else {
            TOUCH_ADDR_SECONDARY
        };
        self.resolved = Some(addr);
    }

    /// The address the controller answered at, if any.
    pub fn resolved_address(&self) -> (addr: Option<u8>)
        ensures
            addr == self.spec_resolved(),
    {
        self.resolved
    }

    /// True once every candidate failed: the fatal bring-up outcome.
    pub fn exhausted(&self) -> (r: bool)
        requires
            self.wf(),
        ensures
            r == (self.spec_resolved() is None && self.spec_attempts() == scan_candidates().len()),
    {
        self.resolved.is_none() && self.attempts >= 2
    }
}

} // verus!
