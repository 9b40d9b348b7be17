//! Input widgets and the values that interactive flows exchange with their
//! event loop.

pub mod confirm;
pub mod event;
pub mod select_list;
pub mod step_bar;
pub mod surface;
pub mod text_input;
pub mod theme;

pub use confirm::Confirm;
pub use select_list::{SelectList, SelectResult};
pub use text_input::TextInput;

use vstd::prelude::*;

verus! {

/// What one step of an interactive flow tells the loop that drives it.
#[derive(Debug)]
pub enum FlowOutcome<T> {
    /// Keep feeding events.
    Continue,
    /// The flow is complete.
    Done(T),
}

/// Why an interactive flow stopped without a result.
#[derive(Debug, Clone, Copy, PartialEq, Eq)]
pub enum FlowError {
    /// The user backed out of the outermost screen, or declined.
    Cancelled,
    /// The hard interrupt key was pressed: the session has to end at once.
    Interrupted,
}

impl FlowError {
    /// The text shown to the user for this error.
    pub open spec fn spec_message(&self) -> Seq<char> {
        match self {
            FlowError::Cancelled => "cancelled"@,
            FlowError::Interrupted => "interrupted"@,
        }
    }

    /// The text shown to the user for this error.
    pub fn message(&self) -> (s: String)
        ensures
            s@ == self.spec_message(),
    {
        match self {
            FlowError::Cancelled => "cancelled".to_owned(),
            FlowError::Interrupted => "interrupted".to_owned(),
        }
    }
}

} // verus!
