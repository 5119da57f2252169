//! Reading the selection: the keystroke that copies it to the clipboard.

use vstd::prelude::*;

verus! {

/// A program to run and its arguments.
#[derive(Debug, Clone, PartialEq, Eq)]
pub struct ScriptCommand {
    pub program: String,
    pub args: Vec<String>,
}

/// The command that presses Cmd+C in the frontmost application (through AppleScript
/// and System Events), so that the selection is copied to the clipboard.
pub fn simulate_cmd_c() -> (c: ScriptCommand)
    ensures
        c.program@ == "osascript"@,
        c.args@.len() == 2,
        c.args@[0]@ == "-e"@,
        c.args@[1]@ == "tell application \"System Events\" to keystroke \"c\" using command down"@,
{
    let mut args: Vec<String> = Vec::new();
    args.push(String::from_str("-e"));
    args.push(
        String::from_str("tell application \"System Events\" to keystroke \"c\" using command down"),
    );
    ScriptCommand { program: String::from_str("osascript"), args }
}

} // verus!
