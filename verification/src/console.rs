//! The console panel's log store: a bounded list of timestamped log
//! entries.
//!
//! Timestamps come from the wall clock through one trusted wrapper; all
//! the store's rules — what a log call appends, and the 100-entry cap —
//! are verified.

use vstd::prelude::*;
use crate::ui_components::{ConsoleLog, LogLevel};

verus! {

/// The largest number of log entries kept; older entries are dropped
/// first.
pub const MAX_CONSOLE_LOGS: usize = 100;

/// Relies on `chrono::Local::now` and its `%H:%M:%S` formatting: the
/// result depends on the clock and the local time zone, so nothing is
/// assumed of it beyond its shape — two digits, a colon, two digits, a
/// colon, two digits: eight characters.
#[verifier::external_body]
fn local_time_hms() -> (r: String)
    ensures
        r@.len() == 8,
{
    chrono::Local::now().format("%H:%M:%S").to_string()
}

/// Console panel state: visibility and the bounded log list.
pub struct ConsolePanel {
    /// Whether to show the console.
    pub show_console: bool,
    /// Log messages for the console.
    pub console_logs: Vec<ConsoleLog>,
}

impl ConsolePanel {
    /// Create a new console panel, hidden, seeded with the sample log
    /// entries.
    pub fn new() -> (r: ConsolePanel)
        ensures
            !r.show_console,
            r.console_logs@.len() == 5,
            r.console_logs@[0].timestamp@ == "12:34:56"@,
            r.console_logs@[0].level is Info,
            r.console_logs@[0].message@ == "Editor initialized"@,
            r.console_logs@[1].timestamp@ == "12:34:57"@,
            r.console_logs@[1].level is Info,
            r.console_logs@[1].message@ == "Scene loaded"@,
            r.console_logs@[2].timestamp@ == "12:34:58"@,
            r.console_logs@[2].level is Warning,
            r.console_logs@[2].message@ == "Missing sprite reference"@,
            r.console_logs@[3].timestamp@ == "12:34:59"@,
            r.console_logs@[3].level is Info,
            r.console_logs@[3].message@ == "Project assets loaded"@,
            r.console_logs@[4].timestamp@ == "12:35:00"@,
            r.console_logs@[4].level is Error,
            r.console_logs@[4].message@ == "Failed to load audio file"@,
    {
        let mut console_logs: Vec<ConsoleLog> = Vec::new();
        console_logs.push(
            ConsoleLog {
                timestamp: "12:34:56".to_owned(),
                level: LogLevel::Info,
                message: "Editor initialized".to_owned(),
            },
        );
        console_logs.push(
            ConsoleLog {
                timestamp: "12:34:57".to_owned(),
                level: LogLevel::Info,
                message: "Scene loaded".to_owned(),
            },
        );
        console_logs.push(
            ConsoleLog {
                timestamp: "12:34:58".to_owned(),
                level: LogLevel::Warning,
                message: "Missing sprite reference".to_owned(),
            },
        );
        console_logs.push(
            ConsoleLog {
                timestamp: "12:34:59".to_owned(),
                level: LogLevel::Info,
                message: "Project assets loaded".to_owned(),
            },
        );
        console_logs.push(
            ConsoleLog {
                timestamp: "12:35:00".to_owned(),
                level: LogLevel::Error,
                message: "Failed to load audio file".to_owned(),
            },
        );
        ConsolePanel { show_console: false, console_logs }
    }

    /// Log an info message.
    pub fn log_info(&mut self, message: &str)
        ensures
            spec_log_added(
                old(self).console_logs@,
                final(self).console_logs@,
                LogLevel::Info,
                message@,
            ),
            final(self).show_console == old(self).show_console,
    {
        self.add_log(LogLevel::Info, message);
    }

    /// Log a warning message.
    pub fn log_warning(&mut self, message: &str)
        ensures
            spec_log_added(
                old(self).console_logs@,
                final(self).console_logs@,
                LogLevel::Warning,
                message@,
            ),
            final(self).show_console == old(self).show_console,
    {
        self.add_log(LogLevel::Warning, message);
    }

    /// Log an error message.
    pub fn log_error(&mut self, message: &str)
        ensures
            spec_log_added(
                old(self).console_logs@,
                final(self).console_logs@,
                LogLevel::Error,
                message@,
            ),
            final(self).show_console == old(self).show_console,
    {
        self.add_log(LogLevel::Error, message);
    }

    /// Add a log message with the current wall-clock timestamp; when the
    /// store exceeds its bound, the oldest entry is dropped.
    pub fn add_log(&mut self, level: LogLevel, message: &str)
        ensures
            spec_log_added(old(self).console_logs@, final(self).console_logs@, level, message@),
            final(self).show_console == old(self).show_console,
    {
        let timestamp = local_time_hms();
        self.console_logs.push(ConsoleLog { timestamp, level, message: message.to_owned() });
        if self.console_logs.len() > MAX_CONSOLE_LOGS {
            self.console_logs.remove(0);
            proof {
                assert(self.console_logs@ =~= old(self).console_logs@.push(
                    self.console_logs@.last(),
                ).drop_first());
            }
        }
    }
}

/// How the log list after a log call relates to the one before: the new
/// entry (with an 8-character timestamp) sits at the end, everything else
/// keeps its order, and the oldest entry is dropped exactly when the list
/// would exceed the bound.
pub open spec fn spec_log_added(
    before: Seq<ConsoleLog>,
    after: Seq<ConsoleLog>,
    level: LogLevel,
    message: Seq<char>,
) -> bool {
    &&& after.len() > 0
    &&& after.last().level == level
    &&& after.last().message@ == message
    &&& after.last().timestamp@.len() == 8
    &&& if before.len() + 1 > MAX_CONSOLE_LOGS {
        after.drop_last() =~= before.drop_first()
    } else {
        after.drop_last() =~= before
    }
}

} // verus!
