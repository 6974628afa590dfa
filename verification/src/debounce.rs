//! Speed control by debounced buttons.
//!
//! A button edge only arms a re-check one settle delay later; the re-check
//! samples the buttons' levels and adjusts the speed. Edges that arrive
//! while a re-check is pending move its deadline: the last edge decides when
//! the levels are read, so a burst of edges leads to one sampling.
//!
//! The caller keeps one timer. An edge that finds the controller armed asks
//! for it to be set; a timer that fires before the deadline, because later
//! edges moved it, is set again for the deadline instead of sampling.
//!
//! The speed is the tick period in cycles. It changes by one step at a time
//! and never leaves the range from `MIN_SPEED` to `MAX_SPEED`: a step that
//! would leave the range is not taken.

use vstd::prelude::*;
use crate::clock::{later, deadline_after};
use crate::symbol::PinLevel;

verus! {

/// Cycles between a button edge and the re-check of the levels.
pub const SETTLE_DELAY: u32 = 3_000_000;

/// Cycles by which one button press changes the tick period.
pub const SPEED_STEP: u32 = 600_000;

/// The tick period after a reset, in cycles.
pub const DEFAULT_SPEED: u32 = 5_000_000;

/// The shortest tick period that a step may reach.
pub const MIN_SPEED: u32 = 600_000;

/// The longest tick period that a step may reach: half the counter's range,
/// so that a deadline is never mistaken for a past instant.
pub const MAX_SPEED: u32 = 0x7fff_ffff;

/// The sampled levels of the two speed buttons. A button is held when its
/// level is `Low`.
#[derive(Clone, Copy, Debug, PartialEq, Eq, Structural)]
pub struct Buttons {
    pub slower: PinLevel,
    pub faster: PinLevel,
}

/// The period one step slower, where that stays in range.
pub open spec fn slowed(speed: u32) -> u32 {
    if speed + SPEED_STEP <= MAX_SPEED {
        (speed + SPEED_STEP) as u32
    } else {
        speed
    }
}

/// The period one step faster, where that stays in range.
pub open spec fn hastened(speed: u32) -> u32 {
    if speed - SPEED_STEP >= MIN_SPEED {
        (speed - SPEED_STEP) as u32
    } else {
        speed
    }
}

/// The period after one re-check: one step slower if "slower" is held, then
/// one step faster if "faster" is held.
pub open spec fn adjusted(speed: u32, buttons: Buttons) -> u32 {
    let slow = if buttons.slower == PinLevel::Low {
        slowed(speed)
    } else {
        speed
    };
    if buttons.faster == PinLevel::Low {
        hastened(slow)
    } else {
        slow
    }
}

/// Applies the held buttons to the tick period.
pub fn adjust_speed(speed: u32, buttons: Buttons) -> (next: u32)
    ensures
        next == adjusted(speed, buttons),
        MIN_SPEED <= speed <= MAX_SPEED ==> MIN_SPEED <= next <= MAX_SPEED,
{
    let mut next: u32 = speed;
    if buttons.slower == PinLevel::Low && next <= MAX_SPEED - SPEED_STEP {
        next = next + SPEED_STEP;
    }
    if buttons.faster == PinLevel::Low && next >= MIN_SPEED + SPEED_STEP {
        next = next - SPEED_STEP;
    }
    next
}

/// Whether a re-check is awaited, and for which instant.
#[derive(Clone, Copy, Debug, PartialEq, Eq, Structural)]
pub enum DebounceState {
    /// No edge since the last sampling.
    Armed,
    /// An edge was seen; the levels are read at `deadline`.
    Pending { deadline: u32 },
}

/// What the caller does when its re-check timer has fired.
#[derive(Clone, Copy, Debug, PartialEq, Eq, Structural)]
pub enum Recheck {
    /// Sample the buttons and adjust the speed.
    Sample,
    /// Later edges moved the deadline: set the timer again, for `deadline`.
    Postpone { deadline: u32 },
    /// No re-check is awaited: do nothing.
    Ignore,
}

/// The state after an edge at `now`, whatever the state before.
pub open spec fn edge_seen(now: u32) -> DebounceState {
    DebounceState::Pending { deadline: later(now, SETTLE_DELAY) }
}

/// The timer that an edge at `now` asks for: one is set only when none is
/// running.
pub open spec fn edge_timer(state: DebounceState, now: u32) -> Option<u32> {
    if state == DebounceState::Armed {
        Some(later(now, SETTLE_DELAY))
    } else {
        None
    }
}

/// The answer to a timer that was set for `scheduled`.
pub open spec fn recheck_answer(state: DebounceState, scheduled: u32) -> Recheck {
    match state {
        DebounceState::Armed => Recheck::Ignore,
        DebounceState::Pending { deadline } => if deadline == scheduled {
            Recheck::Sample
        } else {
            Recheck::Postpone { deadline }
        },
    }
}

/// The state after a timer that was set for `scheduled` has fired: armed
/// again if the levels are sampled, unchanged otherwise.
pub open spec fn rechecked(state: DebounceState, scheduled: u32) -> DebounceState {
    if recheck_answer(state, scheduled) == Recheck::Sample {
        DebounceState::Armed
    } else {
        state
    }
}

impl DebounceState {
    /// Handles a button edge seen at `now`: the levels will be read one
    /// settle delay later. The caller acknowledges the interrupt and, on
    /// `Some`, sets its re-check timer for the returned instant; on `None`
    /// the timer is already running.
    pub fn on_edge(&mut self, now: u32) -> (timer: Option<u32>)
        ensures
            timer == edge_timer(*old(self), now),
            *final(self) == edge_seen(now),
    {
        let deadline = deadline_after(now, SETTLE_DELAY);
        let timer = match *self {
            DebounceState::Armed => Some(deadline),
            DebounceState::Pending { deadline: _ } => None,
        };
        *self = DebounceState::Pending { deadline };
        timer
    }

    /// Handles the re-check timer that was set for `scheduled`.
    pub fn on_recheck(&mut self, scheduled: u32) -> (answer: Recheck)
        ensures
            answer == recheck_answer(*old(self), scheduled),
            *final(self) == rechecked(*old(self), scheduled),
    {
        match *self {
            DebounceState::Pending { deadline } => {
                if deadline == scheduled {
                    *self = DebounceState::Armed;
                    Recheck::Sample
                } else {
                    Recheck::Postpone { deadline }
                }
            },
            DebounceState::Armed => Recheck::Ignore,
        }
    }
}

/// What reaches the controller: a button edge, or the re-check timer firing
/// with the levels that the buttons have at that moment.
#[derive(Clone, Copy, Debug, PartialEq, Eq, Structural)]
pub enum DebounceEvent {
    Edge { now: u32 },
    Timer { scheduled: u32, buttons: Buttons },
}

/// The state after the events, handled in order.
pub open spec fn state_after(start: DebounceState, events: Seq<DebounceEvent>) -> DebounceState
    decreases events.len(),
{
    if events.len() == 0 {
        start
    } else {
        let before = state_after(start, events.drop_last());
        match events.last() {
            DebounceEvent::Edge { now } => edge_seen(now),
            DebounceEvent::Timer { scheduled, buttons } => rechecked(before, scheduled),
        }
    }
}

/// The speed after the events, handled in order: only a sampling changes
/// it.
pub open spec fn speed_after(start: DebounceState, speed: u32, events: Seq<DebounceEvent>) -> u32
    decreases events.len(),
{
    if events.len() == 0 {
        speed
    } else {
        let before = speed_after(start, speed, events.drop_last());
        match events.last() {
            DebounceEvent::Edge { now } => before,
            DebounceEvent::Timer { scheduled, buttons } => if recheck_answer(
                state_after(start, events.drop_last()),
                scheduled,
            ) == Recheck::Sample {
                adjusted(before, buttons)
            } else {
                before
            },
        }
    }
}

/// The number of bursts that begin among the events: edges that find the
/// controller armed.
pub open spec fn bursts_begun(start: DebounceState, events: Seq<DebounceEvent>) -> nat
    decreases events.len(),
{
    if events.len() == 0 {
        0
    } else {
        let earlier = bursts_begun(start, events.drop_last());
        match events.last() {
            DebounceEvent::Edge { now } => if state_after(start, events.drop_last())
                == DebounceState::Armed {
                earlier + 1
            } else {
                earlier
            },
            DebounceEvent::Timer { scheduled, buttons } => earlier,
        }
    }
}

/// The number of samplings among the events.
pub open spec fn samplings(start: DebounceState, events: Seq<DebounceEvent>) -> nat
    decreases events.len(),
{
    if events.len() == 0 {
        0
    } else {
        let earlier = samplings(start, events.drop_last());
        match events.last() {
            DebounceEvent::Edge { now } => earlier,
            DebounceEvent::Timer { scheduled, buttons } => if recheck_answer(
                state_after(start, events.drop_last()),
                scheduled,
            ) == Recheck::Sample {
                earlier + 1
            } else {
                earlier
            },
        }
    }
}

/// The number of timers that the controller has asked for and that have not
/// fired, after the events, where `running` were running at the start.
pub open spec fn timers_running(start: DebounceState, running: int, events: Seq<DebounceEvent>) -> int
    decreases events.len(),
{
    if events.len() == 0 {
        running
    } else {
        let earlier = timers_running(start, running, events.drop_last());
        let before = state_after(start, events.drop_last());
        match events.last() {
            DebounceEvent::Edge { now } => if edge_timer(before, now) is Some {
                earlier + 1
            } else {
                earlier
            },
            DebounceEvent::Timer { scheduled, buttons } => if recheck_answer(before, scheduled)
                is Postpone {
                earlier
            } else {
                earlier - 1
            },
        }
    }
}

/// Whether every timer among the events fires while a re-check is awaited.
pub open spec fn timely(start: DebounceState, events: Seq<DebounceEvent>) -> bool
    decreases events.len(),
{
    if events.len() == 0 {
        true
    } else {
        &&& timely(start, events.drop_last())
        &&& events.last() is Timer ==> state_after(start, events.drop_last()) is Pending
    }
}

/// 1 while a re-check is awaited, else 0.
pub open spec fn awaited(state: DebounceState) -> nat {
    if state == DebounceState::Armed {
        0
    } else {
        1
    }
}

/// One sampling per burst: however many edges arrive while a re-check is
/// pending, and however often the timer fires, each burst ends with exactly
/// one sampling of the buttons. Counting a burst still open at either end,
/// the bursts and the samplings are equal in number.
pub proof fn lemma_one_sampling_per_burst(start: DebounceState, events: Seq<DebounceEvent>)
    ensures
        samplings(start, events) + awaited(state_after(start, events)) == bursts_begun(
            start,
            events,
        ) + awaited(start),
    decreases events.len(),
{
    if events.len() > 0 {
        lemma_one_sampling_per_burst(start, events.drop_last());
    }
}

/// Re-checks do not pile up: as long as only the controller's own timer
/// fires, one timer runs while a re-check is awaited and none otherwise.
pub proof fn lemma_one_timer(start: DebounceState, events: Seq<DebounceEvent>)
    requires
        timely(start, events),
    ensures
        timers_running(start, awaited(start) as int, events) == awaited(state_after(start, events)),
    decreases events.len(),
{
    if events.len() > 0 {
        lemma_one_timer(start, events.drop_last());
    }
}

/// The events of one burst: an edge at each of `times`, then the timer
/// firing at the deadline that the last edge set.
pub open spec fn burst(times: Seq<u32>, buttons: Buttons) -> Seq<DebounceEvent> {
    Seq::new(times.len(), |i: int| DebounceEvent::Edge { now: times[i] }).push(
        DebounceEvent::Timer { scheduled: later(times.last(), SETTLE_DELAY), buttons },
    )
}

proof fn lemma_edges_only(start: DebounceState, speed: u32, times: Seq<u32>)
    ensures
        ({
            let edges = Seq::new(times.len(), |i: int| DebounceEvent::Edge { now: times[i] });
            &&& speed_after(start, speed, edges) == speed
            &&& samplings(start, edges) == 0
            &&& times.len() > 0 ==> state_after(start, edges) == edge_seen(times.last())
            &&& times.len() == 0 ==> state_after(start, edges) == start
        }),
    decreases times.len(),
{
    let edges = Seq::new(times.len(), |i: int| DebounceEvent::Edge { now: times[i] });
    if times.len() > 0 {
        lemma_edges_only(start, speed, times.drop_last());
        assert(edges.drop_last() =~= Seq::new(
            times.drop_last().len(),
            |i: int| DebounceEvent::Edge { now: times.drop_last()[i] },
        ));
    }
}

/// A burst of any number of edges adjusts the speed once: the buttons are
/// sampled one time, the speed moves by the held buttons' steps, and the
/// controller is armed again.
pub proof fn lemma_burst_adjusts_once(
    start: DebounceState,
    speed: u32,
    times: Seq<u32>,
    buttons: Buttons,
)
    requires
        times.len() > 0,
    ensures
        samplings(start, burst(times, buttons)) == 1,
        speed_after(start, speed, burst(times, buttons)) == adjusted(speed, buttons),
        state_after(start, burst(times, buttons)) == DebounceState::Armed,
{
    let edges = Seq::new(times.len(), |i: int| DebounceEvent::Edge { now: times[i] });
    lemma_edges_only(start, speed, times);
    assert(burst(times, buttons).drop_last() =~= edges);
}

/// A sampling moves the speed by at most one step, and never out of the
/// range from `MIN_SPEED` to `MAX_SPEED`.
pub proof fn lemma_adjusted_by_a_step(speed: u32, buttons: Buttons)
    ensures
        speed - SPEED_STEP <= adjusted(speed, buttons) <= speed + SPEED_STEP,
        MIN_SPEED <= speed <= MAX_SPEED ==> MIN_SPEED <= adjusted(speed, buttons) <= MAX_SPEED,
{
}

} // verus!
