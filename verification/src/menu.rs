//! The application menu.
//!
//! The dialogs themselves (file pickers, message boxes) are native
//! windows the unverified shell opens; the library's menu is the
//! handle the shell hangs them on.

use vstd::prelude::*;

verus! {

/// Handle for the application's menu actions.
#[derive(Clone, Copy, Debug, PartialEq, Eq, Structural)]
pub struct Menu;

impl Menu {
    /// A fresh menu handle.
    pub fn new() -> (m: Menu)
        ensures
            m == (Menu {}),
    {
        Menu {}
    }
}

} // verus!
