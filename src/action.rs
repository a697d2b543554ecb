//! The focus modes and the one-shot intents that key handling produces.
use vstd::prelude::*;

verus! {

/// Which panel has keyboard focus.
#[derive(Debug, Clone, Copy, PartialEq, Eq, Structural)]
pub enum Mode {
    UartChoice,
    RateChoice,
    CommandInput,
}

/// What a key press asks the session to do.
#[derive(Debug)]
pub enum Action {
    Nothing,
    Quit,
    SwitchMode(Mode),
    SelectPort(String),
    SelectRate(String),
    Open,
    Error(String),
}

} // verus!
