//! Naming of the collector's log files.
//!
//! Creating, rotating and writing the files is done by the application.

use vstd::prelude::*;
use vstd::string::StringExecFns;

use crate::models::{mode_name, DialoutMode};
use crate::text::{chars_of, decimal, push_decimal, push_text, string_push};

verus! {

/// Log directory name (relative to the working directory).
pub const LOGS_DIR: &'static str = "logs";

/// Backup directory name (inside the log directory).
pub const BACKUP_DIR: &'static str = "backup";

/// A character of a mode name as it appears in a file name: spaces and
/// dashes become `_`, ASCII capitals become lowercase.
pub open spec fn file_name_char(c: char) -> char {
    if c == ' ' || c == '-' {
        '_'
    } else if 'A' <= c && c <= 'Z' {
        ((c as u32) + 32) as char
    } else {
        c
    }
}

/// The prefix of the log files of a mode on a port:
/// `<mode name in file-name form>_server_<port>`.
pub open spec fn spec_log_file_prefix(mode: DialoutMode, port: u16) -> Seq<char> {
    mode_name(mode).map_values(|c: char| file_name_char(c)) + "_server_"@ + decimal(port as nat)
}

/// The prefix of the log files of a mode on a port.
pub fn log_file_prefix(mode: &DialoutMode, port: u16) -> (s: String)
    ensures
        s@ == spec_log_file_prefix(*mode, port),
{
    let name = chars_of(mode.as_str());
    let n = name.len();
    let mut s = String::new();
    let mut i: usize = 0;
    while i < n
        invariant
            n == name@.len(),
            name@ == mode_name(*mode),
            0 <= i <= n,
            s@ == name@.take(i as int).map_values(|c: char| file_name_char(c)),
        decreases n - i,
    {
        let c = name[i];
        let d = if c == ' ' || c == '-' {
            '_'
        } else if 'A' <= c && c <= 'Z' {
            ((c as u8) + 32) as char
        } else {
            c
        };
        string_push(&mut s, d);
        proof {
            assert(s@ =~= name@.take(i + 1).map_values(|c: char| file_name_char(c)));
        }
        i = i + 1;
    }
    assert(name@.take(n as int) =~= name@);
    push_text(&mut s, "_server_");
    push_decimal(&mut s, port as u64);
    s
}

} // verus!
