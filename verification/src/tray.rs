//! Resolution of tray-surface events into actions.
//!
//! The presentation layer reports opaque happenings — a click on the
//! tray icon, a menu item chosen by its identifier. These functions
//! resolve them, once, at the boundary, into the fixed actions the shell
//! performs, independent of how the menu itself is built.

use vstd::prelude::*;

verus! {

/// What the shell does with the main window after a tray interaction.
#[derive(Clone, Copy, Debug, PartialEq, Eq, Structural)]
pub enum WindowAction {
    /// Hide the window.
    Hide,
    /// Show the window and give it focus.
    ShowAndFocus,
}

/// What a chosen menu item means.
#[derive(Clone, Copy, Debug, PartialEq, Eq, Structural)]
pub enum MenuAction {
    /// Exit the host application.
    Quit,
    /// Show the main window and give it focus.
    ShowWindow,
    /// An identifier this surface does not know; nothing happens.
    Ignore,
}

/// Character-for-character equality of two texts.
fn str_eq(a: &str, b: &str) -> (r: bool)
    ensures
        r == (a@ == b@),
{
    let n = a.unicode_len();
    let m = b.unicode_len();
    if n != m {
        return false;
    }
    let mut i: usize = 0;
    while i < n
        invariant
            i <= n,
            n == a@.len(),
            n == b@.len(),
            forall|j: int| 0 <= j < i ==> a@[j] == b@[j],
        decreases n - i,
    {
        if a.get_char(i) != b.get_char(i) {
            return false;
        }
        i = i + 1;
    }
    proof {
        assert(a@ =~= b@);
    }
    true
}

/// A left click on the tray icon toggles the main window: a visible
/// window is hidden, a hidden one is shown and focused.
pub fn left_click_action(window_visible: bool) -> (a: WindowAction)
    ensures
        a == (if window_visible {
            WindowAction::Hide
        } else {
            WindowAction::ShowAndFocus
        }),
{
    if window_visible {
        WindowAction::Hide
    } else {
        WindowAction::ShowAndFocus
    }
}

/// Resolve a chosen menu item's identifier into its action; an unknown
/// identifier does nothing.
pub fn menu_action(id: &str) -> (a: MenuAction)
    ensures
        id@ == "quit"@ ==> a == MenuAction::Quit,
        id@ == "show"@ ==> a == MenuAction::ShowWindow,
        id@ != "quit"@ && id@ != "show"@ ==> a == MenuAction::Ignore,
{
    proof {
        reveal_strlit("quit");
        reveal_strlit("show");
        assert("quit"@[0] == 'q');
        assert("show"@[0] == 's');
        assert("quit"@ != "show"@);
    }
    if str_eq(id, "quit") {
        MenuAction::Quit
    } else if str_eq(id, "show") {
        MenuAction::ShowWindow
    } else {
        MenuAction::Ignore
    }
}

} // verus!
