//! The state of the URL input of the front end.
use vstd::prelude::*;

verus! {

/// Whether the URL input passes keystrokes to its text or reads them as
/// commands.
#[derive(Debug, Clone, Copy, PartialEq, Eq, Structural)]
pub enum InputMode {
    Normal,
    Editing,
}

} // verus!
