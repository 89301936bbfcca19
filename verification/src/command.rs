//! The line-oriented command protocol to the worker.
//!
//! An [`ActionCommand`] is a named action with no payload, forwarded to
//! the worker verbatim. On the wire each command is one line of the fixed
//! form `{"action":"<name>"}` followed by a newline; there is no
//! acknowledgment and no reply protocol.

use vstd::prelude::*;

verus! {

/// A named action forwarded to the worker.
#[derive(Clone, Debug)]
pub struct ActionCommand {
    pub name: String,
}

/// The wire line for an action name: `{"action":"<name>"}` and a newline.
pub open spec fn wire_line(name: Seq<char>) -> Seq<char> {
    "{\"action\":\""@ + name + "\"}\n"@
}

impl ActionCommand {
    /// Build a command from its action name.
    pub fn new(name: String) -> (c: ActionCommand)
        ensures
            c.name@ == name@,
    {
        ActionCommand { name }
    }

    /// Encode the command as its single wire line.
    pub fn encode(&self) -> (line: String)
        ensures
            line@ == wire_line(self.name@),
    {
        let mut line = String::from_str("{\"action\":\"");
        line.append(self.name.as_str());
        line.append("\"}\n");
        line
    }
}

/// The fixed action that both background triggers issue.
pub fn autoplace_action() -> (c: ActionCommand)
    ensures
        c.name@ == "windows/autoplace"@,
{
    ActionCommand::new(String::from_str("windows/autoplace"))
}

} // verus!
