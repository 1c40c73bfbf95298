use vstd::prelude::*;

verus! {

/// Why a trajectory could not be turned into windows.
#[derive(Clone, Copy, Debug, PartialEq, Eq, Structural)]
pub enum BuildError {
    /// The trajectory holds `states` states but `actions` actions.
    InputLengthMismatch { states: usize, actions: usize },
}

impl BuildError {
    /// A one-line description of the error.
    pub fn message(&self) -> (text: &'static str)
        ensures
            text == "states and actions differ in length",
    {
        match self {
            BuildError::InputLengthMismatch { .. } => "states and actions differ in length",
        }
    }
}

} // verus!
