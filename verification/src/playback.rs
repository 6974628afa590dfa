//! The playback scheduler: one decision per tick.
//!
//! A tick completes the transfer that is under way, takes at most one entry
//! from the queue, and selects the buffer for the next transfer. The caller
//! waits for the transfer before the tick, and afterwards submits the
//! selected buffer, drives the indicator and schedules the next tick.

use vstd::prelude::*;
use crate::clock::{later, deadline_after};
use crate::queue::{SymbolQueue, front, dequeued};
use crate::symbol::{PinLevel, SymbolState};

verus! {

/// Which buffer is being played.
#[derive(Clone, Copy, Debug, PartialEq, Eq, Structural)]
pub enum PlaybackState {
    Tone,
    Silent,
}

/// One of the two sample buffers.
#[derive(Clone, Copy, Debug, PartialEq, Eq, Structural)]
pub enum AudioBuffer {
    Waveform,
    Silence,
}

/// A tick found no transfer to complete: an earlier submission had failed.
/// The audio path has no degraded mode, so this is final.
#[derive(Clone, Copy, Debug, PartialEq, Eq, Structural)]
pub enum PlaybackError {
    TransferMissing,
}

/// What the caller does after a tick.
#[derive(Clone, Copy, Debug, PartialEq, Eq, Structural)]
pub struct TickPlan {
    /// The state for the coming period.
    pub state: PlaybackState,
    /// The buffer to submit for transfer.
    pub buffer: AudioBuffer,
    /// The level to drive the indicator to: `Low` lights it.
    pub indicator: PinLevel,
    /// The instant at which the next tick is due.
    pub next_tick: u32,
}

/// The state that a queue entry, or its absence, selects: a tone only for
/// an entry that says so.
pub open spec fn selected_state(entry: Option<SymbolState>) -> PlaybackState {
    if entry == Some(SymbolState::Tone) {
        PlaybackState::Tone
    } else {
        PlaybackState::Silent
    }
}

/// The buffer played in a state.
pub open spec fn buffer_for(state: PlaybackState) -> AudioBuffer {
    match state {
        PlaybackState::Tone => AudioBuffer::Waveform,
        PlaybackState::Silent => AudioBuffer::Silence,
    }
}

/// The indicator's level in a state: asserted, that is low, during a tone.
pub open spec fn indicator_for(state: PlaybackState) -> PinLevel {
    match state {
        PlaybackState::Tone => PinLevel::Low,
        PlaybackState::Silent => PinLevel::High,
    }
}

/// The plan of a tick that was scheduled for `scheduled` and took `entry`
/// from the queue, at a period of `speed` cycles. The next tick is due one
/// period after the instant this one was scheduled for, not after the
/// instant at which it ran.
pub open spec fn plan_for(entry: Option<SymbolState>, scheduled: u32, speed: u32) -> TickPlan {
    TickPlan {
        state: selected_state(entry),
        buffer: buffer_for(selected_state(entry)),
        indicator: indicator_for(selected_state(entry)),
        next_tick: later(scheduled, speed),
    }
}

/// What a tick returns: the plan, if a transfer was under way to complete.
pub open spec fn tick_outcome(
    outstanding: Option<AudioBuffer>,
    entries: Seq<SymbolState>,
    scheduled: u32,
    speed: u32,
) -> Result<TickPlan, PlaybackError> {
    if outstanding is Some {
        Ok(plan_for(front(entries), scheduled, speed))
    } else {
        Err(PlaybackError::TransferMissing)
    }
}

/// The states that `count` ticks in a row select, from a queue that holds
/// `entries` and is given nothing more.
pub open spec fn states_played(entries: Seq<SymbolState>, count: nat) -> Seq<PlaybackState>
    decreases count,
{
    if count == 0 {
        Seq::empty()
    } else {
        seq![selected_state(front(entries))] + states_played(
            dequeued(entries),
            (count - 1) as nat,
        )
    }
}

/// Ticks play the queue in order: tick `k` plays entry `k`, and every tick
/// after the last entry is silent.
pub proof fn lemma_ticks_play_in_order(entries: Seq<SymbolState>, count: nat, k: int)
    requires
        0 <= k < count,
    ensures
        states_played(entries, count).len() == count,
        states_played(entries, count)[k] == (if k < entries.len() {
            selected_state(Some(entries[k]))
        } else {
            PlaybackState::Silent
        }),
    decreases count,
{
    lemma_states_played_len(entries, count);
    if k > 0 {
        lemma_ticks_play_in_order(dequeued(entries), (count - 1) as nat, k - 1);
    }
}

proof fn lemma_states_played_len(entries: Seq<SymbolState>, count: nat)
    ensures
        states_played(entries, count).len() == count,
    decreases count,
{
    if count > 0 {
        lemma_states_played_len(dequeued(entries), (count - 1) as nat);
    }
}

/// The scheduler's record of what is being played.
///
/// At most one transfer is outstanding, and it is of the buffer that
/// belongs to the current state.
pub struct Scheduler {
    state: PlaybackState,
    outstanding: Option<AudioBuffer>,
}

impl Scheduler {
    #[verifier::type_invariant]
    spec fn consistent(self) -> bool {
        self.outstanding is Some ==> self.outstanding == Some(buffer_for(self.state))
    }

    /// The current state.
    pub closed spec fn state(self) -> PlaybackState {
        self.state
    }

    /// The buffer whose transfer is under way, if any.
    pub closed spec fn outstanding(self) -> Option<AudioBuffer> {
        self.outstanding
    }

    /// The scheduler at startup: silent, with the transfer of the silence
    /// buffer under way, which the caller submits before the first tick.
    pub fn new() -> (scheduler: Self)
        ensures
            scheduler.state() == PlaybackState::Silent,
            scheduler.outstanding() == Some(AudioBuffer::Silence),
    {
        Scheduler { state: PlaybackState::Silent, outstanding: Some(AudioBuffer::Silence) }
    }

    /// The current state.
    pub fn current_state(&self) -> (state: PlaybackState)
        ensures
            state == self.state(),
    {
        self.state
    }

    /// The buffer whose transfer is under way, if any.
    pub fn in_flight(&self) -> (buffer: Option<AudioBuffer>)
        ensures
            buffer == self.outstanding(),
            buffer is Some ==> buffer == Some(buffer_for(self.state())),
    {
        proof {
            use_type_invariant(self);
        }
        self.outstanding
    }

    /// Records that the submission of the planned buffer failed. Every later
    /// tick reports `TransferMissing`.
    pub fn transfer_failed(&mut self)
        ensures
            final(self).state() == old(self).state(),
            final(self).outstanding().is_none(),
    {
        self.outstanding = None;
    }

    /// One tick, scheduled for `scheduled`, at a period of `speed` cycles.
    ///
    /// The transfer under way is completed and replaced by the transfer of
    /// the buffer that the oldest queue entry selects; an empty queue
    /// selects silence. Without a transfer under way nothing is taken from
    /// the queue and the error is reported.
    pub fn tick(&mut self, queue: &mut SymbolQueue, scheduled: u32, speed: u32) -> (outcome: Result<
        TickPlan,
        PlaybackError,
    >)
        ensures
            outcome == tick_outcome(old(self).outstanding(), old(queue)@, scheduled, speed),
            final(queue)@ == (if old(self).outstanding() is Some {
                dequeued(old(queue)@)
            } else {
                old(queue)@
            }),
            final(self).state() == (if old(self).outstanding() is Some {
                selected_state(front(old(queue)@))
            } else {
                old(self).state()
            }),
            final(self).outstanding() == (if old(self).outstanding() is Some {
                Some(buffer_for(selected_state(front(old(queue)@))))
            } else {
                None
            }),
            old(queue)@.len() == 0 ==> (outcome matches Ok(plan) ==> plan.state
                == PlaybackState::Silent && plan.buffer == AudioBuffer::Silence),
    {
        if self.outstanding.is_none() {
            return Err(PlaybackError::TransferMissing);
        }
        let entry = queue.dequeue();
        let state = match entry {
            Some(SymbolState::Tone) => PlaybackState::Tone,
            _ => PlaybackState::Silent,
        };
        let buffer = match state {
            PlaybackState::Tone => AudioBuffer::Waveform,
            PlaybackState::Silent => AudioBuffer::Silence,
        };
        let indicator = match state {
            PlaybackState::Tone => PinLevel::Low,
            PlaybackState::Silent => PinLevel::High,
        };
        *self = Scheduler { state, outstanding: Some(buffer) };
        Ok(TickPlan { state, buffer, indicator, next_tick: deadline_after(scheduled, speed) })
    }
}

} // verus!
