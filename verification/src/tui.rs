//! The terminal UI's navigation state: which tab is shown, what mode the
//! screen is in, and how list selections wrap around.
//!
//! Drawing and input live with the caller; the state transitions are here.

use vstd::prelude::*;

verus! {

/// What the screen is doing.
#[derive(Clone, Copy, Debug, PartialEq, Eq, Structural)]
pub enum AppMode {
    Normal,
    Search,
    Downloading,
}

/// Which tab is shown.
#[derive(Clone, Copy, Debug, PartialEq, Eq, Structural)]
pub enum Tab {
    Models,
    Search,
    Settings,
}

impl Tab {
    /// The tab to the right, wrapping around.
    pub fn next(self) -> (t: Tab)
        ensures
            t == match self {
                Tab::Models => Tab::Search,
                Tab::Search => Tab::Settings,
                Tab::Settings => Tab::Models,
            },
    {
        match self {
            Tab::Models => Tab::Search,
            Tab::Search => Tab::Settings,
            Tab::Settings => Tab::Models,
        }
    }

    /// The tab to the left, wrapping around.
    pub fn previous(self) -> (t: Tab)
        ensures
            t == match self {
                Tab::Models => Tab::Settings,
                Tab::Search => Tab::Models,
                Tab::Settings => Tab::Search,
            },
    {
        match self {
            Tab::Models => Tab::Settings,
            Tab::Search => Tab::Models,
            Tab::Settings => Tab::Search,
        }
    }
}

/// The next selection in a list of `len` entries, wrapping past the end; an
/// empty list keeps the selection.
pub fn next_selection(selected: usize, len: usize) -> (r: usize)
    requires
        len == 0 || selected < len,
    ensures
        len == 0 ==> r == selected,
        len > 0 && selected + 1 < len ==> r == selected + 1,
        len > 0 && selected + 1 == len ==> r == 0,
{
    if len == 0 {
        selected
    } else if selected + 1 < len {
        selected + 1
    } else {
        0
    }
}

/// The previous selection in a list of `len` entries, wrapping past the
/// start; an empty list keeps the selection.
pub fn previous_selection(selected: usize, len: usize) -> (r: usize)
    ensures
        len == 0 ==> r == selected,
        len > 0 && selected >= 1 ==> r == selected - 1,
        len > 0 && selected == 0 ==> r == len - 1,
{
    if len == 0 {
        selected
    } else if selected >= 1 {
        selected - 1
    } else {
        len - 1
    }
}

} // verus!
