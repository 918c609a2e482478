//! What a built-in key binding does.
use vstd::prelude::*;

verus! {

/// What a key binding does.
pub enum KeyAction {
    /// Run a shell command and wait for it.
    RunCommand(String),
    /// Start an application in the background.
    RunApp(String),
    /// Print a message: the binding does nothing on this platform.
    Print(String),
    /// The key has no binding.
    Unmapped,
}

/// Model of a key action.
pub enum ActionSpec {
    RunCommand(Seq<char>),
    RunApp(Seq<char>),
    Print(Seq<char>),
    Unmapped,
}

impl KeyAction {
    pub open spec fn view(&self) -> ActionSpec {
        match self {
            KeyAction::RunCommand(s) => ActionSpec::RunCommand(s@),
            KeyAction::RunApp(s) => ActionSpec::RunApp(s@),
            KeyAction::Print(s) => ActionSpec::Print(s@),
            KeyAction::Unmapped => ActionSpec::Unmapped,
        }
    }
}

} // verus!
