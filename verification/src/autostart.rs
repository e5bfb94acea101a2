//! Starting with Windows: the `Run` registry entry that launches the app at
//! log-in. The registry itself is written by the caller.

use vstd::prelude::*;
use crate::text::{push_char, push_str};

verus! {

/// The per-user key whose values are launched at log-in.
pub const RUN_KEY: &'static str = "SOFTWARE\\Microsoft\\Windows\\CurrentVersion\\Run";

/// The name of the app's value under `RUN_KEY`.
pub const APP_NAME: &'static str = "ClaudeMeter";

/// The change to make under `RUN_KEY`.
#[derive(Debug, Clone, PartialEq, Eq)]
pub enum AutostartEdit {
    /// Set the `APP_NAME` value (a `REG_SZ`) to this command line.
    Write(String),
    /// Delete the `APP_NAME` value, if the key can be opened at all.
    Delete,
}

/// The command line stored for `exe_path`: the path in double quotes.
pub open spec fn autostart_command(exe_path: Seq<char>) -> Seq<char> {
    seq!['"'] + exe_path + seq!['"']
}

/// What enabling or disabling autostart writes: the quoted executable path,
/// or the removal of the entry.
pub fn set_autostart(enabled: bool, exe_path: &str) -> (r: AutostartEdit)
    ensures
        enabled ==> (r matches AutostartEdit::Write(v) && v@ == autostart_command(exe_path@)),
        !enabled ==> r is Delete,
{
    if enabled {
        let mut v = String::new();
        push_char(&mut v, '"');
        push_str(&mut v, exe_path);
        push_char(&mut v, '"');
        assert(v@ =~= autostart_command(exe_path@));
        AutostartEdit::Write(v)
    } else {
        AutostartEdit::Delete
    }
}

} // verus!
