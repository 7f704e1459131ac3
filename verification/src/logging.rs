//! The text the supervisor hands to the log sink: the UI relay line and the
//! fixed per-user log file location. The sink itself (file creation and the
//! timestamped line format) is the log library's work, outside this crate.

use vstd::prelude::*;

verus! {

/// The log line recorded for a UI-originated message: the message behind the
/// fixed `UI: ` prefix, unmodified.
pub fn format_ui_log(msg: &str) -> (r: String)
    ensures
        r@ == "UI: "@ + msg@,
{
    let mut line = String::from_str("UI: ");
    line.append(msg);
    line
}

/// The log file location under the user's home directory.
pub fn log_file_path(home: &str) -> (r: String)
    ensures
        r@ == home@ + "/.wox/log/ui.log"@,
{
    let mut path = String::from_str(home);
    path.append("/.wox/log/ui.log");
    path
}

} // verus!
