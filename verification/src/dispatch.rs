//! The dispatch loop as a state machine: how many attempts are in flight,
//! when the next one may start, and what the loop has to do next.
//!
//! The loop that drives it owns the clock and the tasks. It asks `poll` what
//! to do, does it, and reports every finished attempt with `complete`.
//! Times are milliseconds since the loop started. With every attempt that
//! it starts, the dispatcher hands out the next value of the username
//! cursor.

use crate::error::ConfigFault;
use crate::error::VoteError;
use crate::selector::advance;
use crate::stats::Outcome;
use crate::stats::Stats;
use vstd::prelude::*;

verus! {

/// What the dispatch loop has to do next.
#[derive(Clone, Copy, Debug, PartialEq, Eq, Structural)]
pub enum Action {
    /// The timer has not fired yet: sleep until the given time, then poll
    /// again.
    Sleep { until_ms: u64 },
    /// Every slot is taken: wait until an attempt finishes, report it, then
    /// poll again.
    AwaitSlot,
    /// A slot has been taken for a new attempt: start it now, for the
    /// username that the cursor value `ticket` selects.
    Spawn { ticket: usize },
}

/// What can happen to the dispatcher.
#[derive(Clone, Copy, Debug, PartialEq, Eq, Structural)]
pub enum Event {
    /// The loop polled at the given time.
    Poll { now_ms: u64 },
    /// An attempt reached its end and gave its slot back.
    Complete,
}

/// The state of the dispatch loop.
#[derive(Clone, Copy, Debug, PartialEq, Eq, Structural)]
pub struct DispatchState {
    /// Number of slots: the most attempts that may be in flight at once.
    pub capacity: usize,
    /// Attempts that were started and have not finished.
    pub in_flight: usize,
    /// Milliseconds between two ticks of the timer; zero for no timer.
    pub period_ms: u64,
    /// When the timer fires next.
    pub next_tick_ms: u64,
    /// Whether the next attempt has to wait for the timer. Once a tick has
    /// fired, the loop only waits for a free slot.
    pub awaiting_tick: bool,
    /// The username cursor: the value that the next attempt is given. It
    /// counts the attempts started, and wraps past the largest value.
    pub next_ticket: usize,
}

/// `now_ms + period_ms`, held at the largest representable time.
pub open spec fn tick_after(now_ms: u64, period_ms: u64) -> u64 {
    if now_ms + period_ms > u64::MAX {
        u64::MAX
    } else {
        (now_ms + period_ms) as u64
    }
}

impl DispatchState {
    /// The state before the first poll: nothing in flight, and with a timer
    /// its first tick due at once.
    pub open spec fn initial(capacity: usize, period_ms: u64) -> DispatchState {
        DispatchState {
            capacity,
            in_flight: 0,
            period_ms,
            next_tick_ms: 0,
            awaiting_tick: period_ms > 0,
            next_ticket: 0,
        }
    }

    /// What holds of every state that the loop can reach.
    pub open spec fn wf(self) -> bool {
        &&& self.capacity > 0
        &&& self.in_flight <= self.capacity
        &&& (self.period_ms == 0 ==> !self.awaiting_tick)
    }

    /// Whether a poll at `now_ms` finds the timer fired.
    pub open spec fn tick_due(self, now_ms: u64) -> bool {
        self.awaiting_tick && now_ms >= self.next_tick_ms
    }

    /// The state after the timer has been looked at. A due tick is taken and
    /// the following one is set one period after `now_ms`: ticks that were
    /// missed in between are not made up for.
    pub open spec fn after_tick(self, now_ms: u64) -> DispatchState {
        if self.tick_due(now_ms) {
            DispatchState {
                next_tick_ms: tick_after(now_ms, self.period_ms),
                awaiting_tick: false,
                ..self
            }
        } else {
            self
        }
    }

    /// What a poll at `now_ms` tells the loop to do.
    pub open spec fn decide(self, now_ms: u64) -> Action {
        let s = self.after_tick(now_ms);
        if s.awaiting_tick {
            Action::Sleep { until_ms: s.next_tick_ms }
        } else if s.in_flight >= s.capacity {
            Action::AwaitSlot
        } else {
            Action::Spawn { ticket: s.next_ticket }
        }
    }

    /// The state after a poll at `now_ms`. Where the poll says `Spawn`, the
    /// slot is taken at once, the cursor moves on, and with a timer the
    /// next attempt waits for the next tick.
    pub open spec fn after_poll(self, now_ms: u64) -> DispatchState {
        let s = self.after_tick(now_ms);
        if self.decide(now_ms) is Spawn {
            DispatchState {
                in_flight: (s.in_flight + 1) as usize,
                awaiting_tick: s.period_ms > 0,
                next_ticket: advance(s.next_ticket),
                ..s
            }
        } else {
            s
        }
    }

    /// The state after an attempt has finished: its slot is free again.
    pub open spec fn after_complete(self) -> DispatchState {
        if self.in_flight > 0 {
            DispatchState { in_flight: (self.in_flight - 1) as usize, ..self }
        } else {
            self
        }
    }

    /// The state after one event.
    pub open spec fn step(self, event: Event) -> DispatchState {
        match event {
            Event::Poll { now_ms } => self.after_poll(now_ms),
            Event::Complete => self.after_complete(),
        }
    }

    /// The state after a sequence of events, first to last.
    pub open spec fn run(self, events: Seq<Event>) -> DispatchState
        decreases events.len(),
    {
        if events.len() == 0 {
            self
        } else {
            self.run(events.drop_last()).step(events.last())
        }
    }
}

/// One event keeps a reachable state reachable, and changes neither the
/// number of slots nor the period.
pub proof fn lemma_step_keeps_wf(s: DispatchState, event: Event)
    requires
        s.wf(),
    ensures
        s.step(event).wf(),
        s.step(event).capacity == s.capacity,
        s.step(event).period_ms == s.period_ms,
{
}

/// The concurrency bound. Whatever the loop polls and whatever finishes, in
/// whatever order and at whatever times, with a timer or without: after
/// every event the number of attempts in flight is at most the number of
/// slots.
pub proof fn lemma_in_flight_never_exceeds_capacity(
    capacity: usize,
    period_ms: u64,
    events: Seq<Event>,
)
    requires
        capacity > 0,
    ensures
        DispatchState::initial(capacity, period_ms).run(events).wf(),
        DispatchState::initial(capacity, period_ms).run(events).capacity == capacity,
        DispatchState::initial(capacity, period_ms).run(events).period_ms == period_ms,
        DispatchState::initial(capacity, period_ms).run(events).in_flight <= capacity,
    decreases events.len(),
{
    let start = DispatchState::initial(capacity, period_ms);
    if events.len() > 0 {
        lemma_in_flight_never_exceeds_capacity(capacity, period_ms, events.drop_last());
        lemma_step_keeps_wf(start.run(events.drop_last()), events.last());
    }
}

/// An attempt is started only into a free slot, and takes exactly one. It
/// is given the value of the cursor, and the cursor moves on by one; a poll
/// that starts nothing leaves both as they were.
pub proof fn lemma_spawn_takes_one_free_slot(s: DispatchState, now_ms: u64)
    requires
        s.wf(),
    ensures
        s.decide(now_ms) is Spawn ==> {
            &&& s.in_flight < s.capacity
            &&& s.after_poll(now_ms).in_flight == s.in_flight + 1
            &&& s.decide(now_ms) == (Action::Spawn { ticket: s.next_ticket })
            &&& s.after_poll(now_ms).next_ticket == advance(s.next_ticket)
        },
        !(s.decide(now_ms) is Spawn) ==> {
            &&& s.after_poll(now_ms).in_flight == s.in_flight
            &&& s.after_poll(now_ms).next_ticket == s.next_ticket
        },
        s.after_complete().next_ticket == s.next_ticket,
{
}

/// Without a timer nothing delays the loop: a poll never says `Sleep`, and
/// it says `Spawn` whenever a slot is free, whatever the time.
pub proof fn lemma_unbounded_spawns_when_slot_free(s: DispatchState, now_ms: u64)
    requires
        s.wf(),
        s.period_ms == 0,
    ensures
        !(s.decide(now_ms) is Sleep),
        s.in_flight < s.capacity <==> s.decide(now_ms) is Spawn,
        s.after_poll(now_ms).period_ms == 0,
{
}

/// With a timer, a loop that is not held up runs on the period. If the
/// poll comes at the very time the tick is due and a slot is free, the
/// attempt starts at once; every poll before one period has passed says to
/// sleep until then; and the poll at that time, with a slot free, starts
/// the next attempt. (The sum is required to be representable as a time.)
pub proof fn lemma_unsaturated_spawns_one_period_apart(s: DispatchState, later_ms: u64)
    requires
        s.wf(),
        s.period_ms > 0,
        s.awaiting_tick,
        s.in_flight < s.capacity,
        s.next_tick_ms + s.period_ms <= u64::MAX,
    ensures
        s.decide(s.next_tick_ms) is Spawn,
        s.after_poll(s.next_tick_ms).next_tick_ms == s.next_tick_ms + s.period_ms,
        later_ms < s.next_tick_ms + s.period_ms ==> s.after_poll(s.next_tick_ms).decide(later_ms)
            == (Action::Sleep { until_ms: (s.next_tick_ms + s.period_ms) as u64 }),
        s.after_poll(s.next_tick_ms).in_flight < s.capacity ==> s.after_poll(
            s.next_tick_ms,
        ).decide((s.next_tick_ms + s.period_ms) as u64) is Spawn,
{
}

/// Missed ticks are not made up for. A tick taken at `now_ms` sets the next
/// one a full period later, however late it was itself, so that no tick is
/// due at any time before that; and no event ever moves the time of the
/// next tick back. A loop that comes back late therefore finds one tick
/// due, not one for every period that has passed.
pub proof fn lemma_late_tick_is_one_release(
    s: DispatchState,
    now_ms: u64,
    later_ms: u64,
    event: Event,
)
    requires
        s.wf(),
    ensures
        s.tick_due(now_ms) ==> s.after_poll(now_ms).next_tick_ms == tick_after(
            now_ms,
            s.period_ms,
        ),
        s.tick_due(now_ms) && later_ms < tick_after(now_ms, s.period_ms) ==> !s.after_poll(
            now_ms,
        ).tick_due(later_ms),
        s.step(event).next_tick_ms >= s.next_tick_ms,
{
}

/// The end of an attempt. Whatever its outcome, it frees exactly one slot
/// and moves exactly one counter by one. (An attempt in flight is required,
/// and counters that are not about to wrap.)
pub proof fn lemma_attempt_ends_once(s: DispatchState, stats: Stats, outcome: Outcome)
    requires
        s.wf(),
        s.in_flight > 0,
        stats.votes < u64::MAX,
        stats.errors < u64::MAX,
    ensures
        s.after_complete().in_flight == s.in_flight - 1,
        s.after_complete().wf(),
        stats.after(outcome).total() == stats.total() + 1,
        stats.after(outcome).votes == stats.votes || stats.after(outcome).errors == stats.errors,
{
}

/// The dispatcher: the state of the dispatch loop, kept well-formed.
pub struct Dispatcher {
    state: DispatchState,
}

impl View for Dispatcher {
    type V = DispatchState;

    closed spec fn view(&self) -> DispatchState {
        self.state
    }
}

impl Dispatcher {
    #[verifier::type_invariant]
    spec fn inv(self) -> bool {
        self.state.wf()
    }

    /// A dispatcher with `max_connections` slots and a timer of `rate_ms`
    /// milliseconds, or none if `rate_ms` is zero. Zero slots are refused.
    pub fn new(max_connections: usize, rate_ms: u64) -> (result: Result<Dispatcher, VoteError>)
        ensures
            max_connections == 0 <==> result is Err,
            result matches Err(e) ==> e matches VoteError::Config(ConfigFault::NoConnections),
            result matches Ok(d) ==> d@ == DispatchState::initial(max_connections, rate_ms)
                && d@.wf(),
    {
        if max_connections == 0 {
            Err(VoteError::Config(ConfigFault::NoConnections))
        } else {
            Ok(
                Dispatcher {
                    state: DispatchState {
                        capacity: max_connections,
                        in_flight: 0,
                        period_ms: rate_ms,
                        next_tick_ms: 0,
                        awaiting_tick: rate_ms > 0,
                        next_ticket: 0,
                    },
                },
            )
        }
    }

    /// The current state.
    pub fn state(&self) -> (s: DispatchState)
        ensures
            s == self@,
            s.wf(),
    {
        proof {
            use_type_invariant(self);
        }
        self.state
    }

    /// Decides what the loop does at time `now_ms`. If the answer is
    /// `Spawn`, the slot is taken and the cursor value of the new attempt
    /// comes with it.
    pub fn poll(&mut self, now_ms: u64) -> (action: Action)
        ensures
            action == old(self)@.decide(now_ms),
            final(self)@ == old(self)@.after_poll(now_ms),
            final(self)@.wf(),
            final(self)@.in_flight <= final(self)@.capacity,
    {
        proof {
            use_type_invariant(&*self);
        }
        if self.state.awaiting_tick && now_ms >= self.state.next_tick_ms {
            self.state.next_tick_ms = now_ms.saturating_add(self.state.period_ms);
            self.state.awaiting_tick = false;
        }
        if self.state.awaiting_tick {
            Action::Sleep { until_ms: self.state.next_tick_ms }
        } else if self.state.in_flight >= self.state.capacity {
            Action::AwaitSlot
        } else {
            let ticket = self.state.next_ticket;
            self.state.in_flight = self.state.in_flight + 1;
            self.state.awaiting_tick = self.state.period_ms > 0;
            self.state.next_ticket = ticket.wrapping_add(1);
            Action::Spawn { ticket }
        }
    }

    /// Brings one attempt to its end: counts its outcome in `stats` and
    /// frees its slot. Every attempt ends here, whatever its outcome, so
    /// each moves exactly one counter and gives back exactly one slot.
    pub fn complete(&mut self, stats: &mut Stats, outcome: Outcome)
        ensures
            final(self)@ == old(self)@.after_complete(),
            final(self)@.wf(),
            *final(stats) == old(stats).after(outcome),
    {
        proof {
            use_type_invariant(&*self);
        }
        stats.record(outcome);
        if self.state.in_flight > 0 {
            self.state.in_flight = self.state.in_flight - 1;
        }
    }
}

} // verus!
