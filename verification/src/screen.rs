//! The closed set of interface screens. The navigation state machine is
//! always in exactly one of these; `Main` is the initial screen.

use vstd::prelude::*;

verus! {

/// Which screen or popup of the interface is active.
#[derive(Debug, Clone, Copy, PartialEq, Eq, Structural)]
pub enum Screen {
    Main,
    ScreenSwitchMenu,
    NonWorktreeRepoCreate,
    NonWorktreeRepoDelete,
    WorktreeRepoCreate,
    WorktreeRepoDelete,
    WorktreeCreate,
    WorktreeDelete,
    Summary,
}

impl Default for Screen {
    /// The interface starts on the main screen.
    fn default() -> (r: Self)
        ensures
            r == Screen::Main,
    {
        Screen::Main
    }
}

} // verus!
