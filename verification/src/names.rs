//! The fixed names by which the host and the shell address the main window and
//! the entries of the tray menu.

use vstd::prelude::*;

verus! {

/// The label of the main window.
pub const MAIN_WINDOW: &'static str = "main";

/// The identifier of the menu entry that hides the main window.
pub const HIDE_ID: &'static str = "hide";

/// The identifier of the menu entry that ends the process.
pub const EXIT_ID: &'static str = "exit";

/// What the entry that hides the main window shows.
pub const HIDE_LABEL: &'static str = "Hide";

/// What the entry that ends the process shows.
pub const EXIT_LABEL: &'static str = "Exit";

/// The code with which the process ends when the user asks it to.
pub const EXIT_CODE: i32 = 0;

/// Whether two strings hold the same text.
pub fn same_text(a: &str, b: &str) -> (same: bool)
    ensures
        same == (a@ == b@),
{
    a.to_owned() == b.to_owned()
}

/// Whether `label` names the main window.
pub fn is_main_window(label: &str) -> (b: bool)
    ensures
        b == (label@ == MAIN_WINDOW@),
{
    same_text(label, MAIN_WINDOW)
}

} // verus!
