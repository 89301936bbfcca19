//! The hotkey trigger: one globally registered shortcut, or none.
//!
//! The manager owns the currently registered shortcut. A selection first
//! deregisters the old shortcut, then registers the new one; the OS
//! calls themselves are the unverified shell's, which reports back
//! whether registration succeeded. A failed registration leaves the
//! state deterministically unregistered and produces one error event.
//! When the shortcut fires, the shell sends the fixed autoplace action
//! through the command sender, without touching this state.

use vstd::prelude::*;

use crate::events::LogEvent;
use crate::events::LogLevel;

verus! {

/// The hotkey manager's state: the registered shortcut, if any.
pub struct HotkeyManager {
    pub registered: Option<String>,
}

impl View for HotkeyManager {
    type V = Option<Seq<char>>;

    open spec fn view(&self) -> Option<Seq<char>> {
        match self.registered {
            Some(s) => Some(s@),
            None => None,
        }
    }
}

/// One selection, abstractly: the old shortcut is always retired; the
/// new one is registered exactly when one was given and the OS accepted
/// it, and the state is unregistered otherwise.
pub open spec fn spec_select_shortcut(
    current: Option<Seq<char>>,
    chosen: Option<Seq<char>>,
    register_ok: bool,
) -> Option<Seq<char>> {
    match chosen {
        Some(s) => if register_ok {
            Some(s)
        } else {
            None
        },
        None => None,
    }
}

impl HotkeyManager {
    /// A fresh manager with nothing registered.
    pub fn new() -> (m: HotkeyManager)
        ensures
            m@ is None,
    {
        HotkeyManager { registered: None }
    }

    /// The shortcut the shell must deregister before a new selection
    /// takes effect: exactly the one currently registered.
    pub fn to_deregister(&self) -> (s: &Option<String>)
        ensures
            s is Some <==> self@ is Some,
            s matches Some(x) ==> self@ == Some(x@),
    {
        &self.registered
    }

    /// Complete a selection, after the shell deregistered the old
    /// shortcut and — when one was chosen — attempted to register the
    /// new one with the reported outcome. A failed registration leaves
    /// the state unregistered and hands back the one error event to
    /// deliver; it never falls back silently to the old shortcut.
    pub fn apply_select(&mut self, chosen: Option<String>, register_ok: bool) -> (log: Option<
        LogEvent,
    >)
        ensures
            final(self)@ == spec_select_shortcut(
                old(self)@,
                match chosen {
                    Some(s) => Some(s@),
                    None => None,
                },
                register_ok,
            ),
            log is Some <==> (chosen is Some && !register_ok),
            chosen matches Some(s) ==> (register_ok || (log matches Some(e) && e.is_event(
                LogLevel::Error,
                "failed to register shortcut "@ + s@,
            ))),
    {
        match chosen {
            Some(s) => {
                if register_ok {
                    self.registered = Some(s);
                    None
                } else {
                    self.registered = None;
                    let mut m = String::from_str("failed to register shortcut ");
                    m.append(s.as_str());
                    Some(LogEvent::new(LogLevel::Error, m))
                }
            },
            None => {
                self.registered = None;
                None
            },
        }
    }
}

/// Selecting the same shortcut twice, both registrations succeeding,
/// leaves exactly the state one selection leaves: the old registration
/// is retired and the same shortcut registered again, net effect
/// unchanged.
pub proof fn lemma_select_same_shortcut_twice(
    current: Option<Seq<char>>,
    chosen: Option<Seq<char>>,
)
    ensures
        spec_select_shortcut(
            spec_select_shortcut(current, chosen, true),
            chosen,
            true,
        ) == spec_select_shortcut(current, chosen, true),
{
}

/// At any moment at most one shortcut is registered: a selection ends
/// with the chosen shortcut alone, or with none at all.
pub proof fn lemma_select_leaves_chosen_or_none(
    current: Option<Seq<char>>,
    chosen: Option<Seq<char>>,
    register_ok: bool,
)
    ensures
        spec_select_shortcut(current, chosen, register_ok) == chosen || spec_select_shortcut(
            current,
            chosen,
            register_ok,
        ) is None,
{
}

} // verus!
