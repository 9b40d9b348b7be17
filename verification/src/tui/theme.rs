//! The styles and help lines that the widgets use.

use vstd::prelude::*;

verus! {

/// A named look for a run of text. The terminal layer decides the colours.
#[derive(Debug, Clone, Copy, PartialEq, Eq)]
pub enum Style {
    /// Labels and the active step.
    Cyan,
    /// Completed steps.
    Green,
    /// Hints, defaults and what is not selected.
    Dim,
    /// The selected entry.
    Highlight,
    /// Plain text.
    Normal,
    /// Error messages.
    Error,
}

/// The help line of a wizard step that can be left backwards.
pub const HELP_WIZARD: &'static str = "Enter confirm  \u{b7}  Esc back  \u{b7}  Ctrl+C cancel";

/// The help line of the first step of a wizard.
pub const HELP_FIRST_STEP: &'static str = "Enter confirm  \u{b7}  Ctrl+C cancel";

/// The help line of a list.
pub const HELP_SELECT: &'static str =
    "\u{2191}\u{2193} navigate  \u{b7}  type to filter  \u{b7}  Enter select  \u{b7}  Esc cancel";

/// The help line of a question.
pub const HELP_CONFIRM: &'static str =
    "\u{2190}\u{2192} toggle  \u{b7}  y/n  \u{b7}  Enter confirm  \u{b7}  Esc back";

} // verus!
