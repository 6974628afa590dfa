//! The values that travel from the text side to the audio side.

use vstd::prelude::*;

verus! {

/// What one scheduler tick should sound like.
#[derive(Clone, Copy, Debug, PartialEq, Eq, Structural)]
pub enum SymbolState {
    /// The tone is audible for this tick.
    Tone,
    /// The output is silent for this tick.
    Silence,
}

/// One keying step: a state held for `duration` unit ticks.
#[derive(Clone, Copy, Debug, PartialEq, Eq, Structural)]
pub struct Action {
    pub state: SymbolState,
    pub duration: u8,
}

/// The electrical level of a pin.
#[derive(Clone, Copy, Debug, PartialEq, Eq, Structural)]
pub enum PinLevel {
    Low,
    High,
}

} // verus!
