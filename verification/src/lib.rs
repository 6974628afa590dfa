//! A Morse-code tone scheduler for a double-buffered stereo audio output.
//!
//! Text is keyed into unit ticks that wait in a bounded queue; a periodic
//! tick takes one entry at a time and selects the tone buffer or the silent
//! buffer for the next transfer; debounced buttons adjust the tick period.
//! Every decision is a function from plain values to plain values: the caller
//! owns the peripherals and performs the transfers, pin accesses and timers.

pub mod symbol;
pub mod clock;
pub mod waveform;
pub mod queue;
pub mod encoder;
pub mod debounce;
pub mod playback;
pub mod engine;
