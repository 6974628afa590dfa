//! The engine: everything the tasks share, in one place.
//!
//! The two sample buffers, the symbol queue, the tick period and the states
//! of the playback scheduler and of the debounce controller belong to one
//! value. Each task is one method: the text task stores ticks, the periodic
//! tick plays them, the edge handler and the re-check adjust the period.
//! The period is written only by the re-check and read only by the tick.

use vstd::prelude::*;
use crate::debounce::{
    adjust_speed, adjusted, edge_seen, edge_timer, recheck_answer, rechecked, Buttons,
    DebounceState, Recheck, DEFAULT_SPEED,
};
use crate::encoder::{
    accepted_count, enqueue_actions, enqueue_text, enqueued_all, morse_actions, total_duration,
    unit_ticks,
};
use crate::playback::{
    buffer_for, indicator_for, selected_state, tick_outcome, AudioBuffer, PlaybackError,
    PlaybackState, Scheduler, TickPlan,
};
use crate::queue::{dequeued, front, SymbolQueue};
use crate::symbol::{Action, PinLevel, SymbolState};
use crate::waveform::{
    lemma_table_defined, silence_table, silent_table, triangle_table, waveform_table,
};

verus! {

/// Samples per buffer: 16 stereo frames.
pub const BUFFER_SAMPLES: usize = 32;

/// Peak amplitude of the tone.
pub const TONE_AMPLITUDE: i32 = 2048;

/// Phase of the tone, in frames.
pub const TONE_PHASE: i32 = 0;

/// Periods of the tone per buffer.
pub const TONE_PERIODS: i32 = 1;

/// What an engine holds, as plain values.
pub struct EngineView {
    /// The samples of the tone buffer.
    pub signal: Seq<i16>,
    /// The samples of the silent buffer.
    pub mute: Seq<i16>,
    /// The queued ticks, oldest first.
    pub entries: Seq<SymbolState>,
    /// The tick period in cycles.
    pub speed: u32,
    /// The playback state.
    pub state: PlaybackState,
    /// The buffer whose transfer is under way, if any.
    pub outstanding: Option<AudioBuffer>,
    /// The state of the debounce controller.
    pub debounce: DebounceState,
}

/// The engine's state after startup.
pub open spec fn startup() -> EngineView {
    EngineView {
        signal: triangle_table(
            BUFFER_SAMPLES as int,
            TONE_AMPLITUDE as int,
            TONE_PHASE as int,
            TONE_PERIODS as int,
        ),
        mute: silent_table(BUFFER_SAMPLES as int),
        entries: Seq::empty(),
        speed: DEFAULT_SPEED,
        state: PlaybackState::Silent,
        outstanding: Some(AudioBuffer::Silence),
        debounce: DebounceState::Armed,
    }
}

/// The buffers, the queue, the tick period and the two controllers.
pub struct Engine {
    signal: [i16; BUFFER_SAMPLES],
    mute: [i16; BUFFER_SAMPLES],
    queue: SymbolQueue,
    speed: u32,
    scheduler: Scheduler,
    debounce: DebounceState,
}

impl View for Engine {
    type V = EngineView;

    closed spec fn view(&self) -> EngineView {
        EngineView {
            signal: self.signal@,
            mute: self.mute@,
            entries: self.queue@,
            speed: self.speed,
            state: self.scheduler.state(),
            outstanding: self.scheduler.outstanding(),
            debounce: self.debounce,
        }
    }
}

impl Engine {
    /// The engine at startup: both buffers filled, the queue empty, the
    /// default period, silence playing and no re-check pending. The caller
    /// submits the silent buffer before the first tick.
    pub fn new() -> (engine: Self)
        ensures
            engine@ == startup(),
    {
        proof {
            lemma_table_defined(
                BUFFER_SAMPLES as int,
                TONE_AMPLITUDE as int,
                TONE_PHASE as int,
                TONE_PERIODS as int,
            );
        }
        Engine {
            signal: waveform_table::<BUFFER_SAMPLES>(TONE_AMPLITUDE, TONE_PHASE, TONE_PERIODS),
            mute: silence_table::<BUFFER_SAMPLES>(),
            queue: SymbolQueue::new(),
            speed: DEFAULT_SPEED,
            scheduler: Scheduler::new(),
            debounce: DebounceState::Armed,
        }
    }

    /// The samples of one of the two buffers.
    pub fn buffer(&self, which: AudioBuffer) -> (samples: &[i16; BUFFER_SAMPLES])
        ensures
            samples@ == (match which {
                AudioBuffer::Waveform => self@.signal,
                AudioBuffer::Silence => self@.mute,
            }),
    {
        match which {
            AudioBuffer::Waveform => &self.signal,
            AudioBuffer::Silence => &self.mute,
        }
    }

    /// The tick period in cycles.
    pub fn speed(&self) -> (speed: u32)
        ensures
            speed == self@.speed,
    {
        self.speed
    }

    /// The number of ticks waiting in the queue.
    pub fn queued(&self) -> (count: usize)
        ensures
            count == self@.entries.len(),
    {
        self.queue.len()
    }

    /// The playback state.
    pub fn state(&self) -> (state: PlaybackState)
        ensures
            state == self@.state,
    {
        self.scheduler.current_state()
    }

    /// The buffer whose transfer is under way, if any.
    pub fn in_flight(&self) -> (buffer: Option<AudioBuffer>)
        ensures
            buffer == self@.outstanding,
    {
        self.scheduler.in_flight()
    }

    /// The state of the debounce controller.
    pub fn debounce(&self) -> (state: DebounceState)
        ensures
            state == self@.debounce,
    {
        self.debounce
    }

    /// The level at which the indicator stands: low during a tone.
    pub fn indicator(&self) -> (level: PinLevel)
        ensures
            level == indicator_for(self@.state),
    {
        match self.scheduler.current_state() {
            PlaybackState::Tone => PinLevel::Low,
            PlaybackState::Silent => PinLevel::High,
        }
    }

    /// The text task: encodes `text` as Morse code and stores it as unit
    /// ticks, dropping what finds the queue full. Returns the number stored.
    pub fn enqueue_text(&mut self, text: &str) -> (accepted: usize)
        ensures
            final(self)@ == (EngineView {
                entries: enqueued_all(old(self)@.entries, unit_ticks(morse_actions(text@))),
                ..old(self)@
            }),
            accepted == accepted_count(old(self)@.entries, total_duration(morse_actions(text@))),
    {
        enqueue_text(&mut self.queue, text)
    }

    /// Stores already encoded actions as unit ticks, dropping what finds the
    /// queue full. Returns the number stored.
    pub fn enqueue_actions(&mut self, actions: &[Action]) -> (accepted: usize)
        ensures
            final(self)@ == (EngineView {
                entries: enqueued_all(old(self)@.entries, unit_ticks(actions@)),
                ..old(self)@
            }),
            accepted == accepted_count(old(self)@.entries, total_duration(actions@)),
    {
        enqueue_actions(&mut self.queue, actions)
    }

    /// The periodic tick, scheduled for `scheduled`. The caller has waited
    /// for the transfer under way; on `Ok` it submits the planned buffer,
    /// drives the indicator and schedules the next tick.
    pub fn tick(&mut self, scheduled: u32) -> (outcome: Result<TickPlan, PlaybackError>)
        ensures
            outcome == tick_outcome(
                old(self)@.outstanding,
                old(self)@.entries,
                scheduled,
                old(self)@.speed,
            ),
            old(self)@.outstanding is Some ==> final(self)@ == (EngineView {
                entries: dequeued(old(self)@.entries),
                state: selected_state(front(old(self)@.entries)),
                outstanding: Some(buffer_for(selected_state(front(old(self)@.entries)))),
                ..old(self)@
            }),
            old(self)@.outstanding is None ==> final(self)@ == old(self)@,
            old(self)@.entries.len() == 0 ==> (outcome matches Ok(plan) ==> plan.state
                == PlaybackState::Silent && plan.buffer == AudioBuffer::Silence),
    {
        self.scheduler.tick(&mut self.queue, scheduled, self.speed)
    }

    /// Records that the submission of a planned buffer failed.
    pub fn transfer_failed(&mut self)
        ensures
            final(self)@ == (EngineView { outstanding: None, ..old(self)@ }),
    {
        self.scheduler.transfer_failed();
    }

    /// The edge handler, for an edge seen at `now`. On `Some` the caller
    /// sets the re-check timer for the returned instant. The period is not
    /// touched.
    pub fn on_edge(&mut self, now: u32) -> (timer: Option<u32>)
        ensures
            timer == edge_timer(old(self)@.debounce, now),
            final(self)@ == (EngineView { debounce: edge_seen(now), ..old(self)@ }),
    {
        self.debounce.on_edge(now)
    }

    /// The re-check, for the timer that was set for `scheduled`, with the
    /// levels that the buttons have now. On `Sample` the levels have been
    /// applied to the period; on `Postpone` the caller sets the timer again.
    pub fn on_recheck(&mut self, scheduled: u32, buttons: Buttons) -> (answer: Recheck)
        ensures
            answer == recheck_answer(old(self)@.debounce, scheduled),
            final(self)@ == (EngineView {
                debounce: rechecked(old(self)@.debounce, scheduled),
                speed: if answer == Recheck::Sample {
                    adjusted(old(self)@.speed, buttons)
                } else {
                    old(self)@.speed
                },
                ..old(self)@
            }),
    {
        let answer = self.debounce.on_recheck(scheduled);
        if answer == Recheck::Sample {
            self.speed = adjust_speed(self.speed, buttons);
        }
        answer
    }
}

} // verus!
