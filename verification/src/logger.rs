//! The log ring buffer: formats messages and keeps the most recent lines for
//! the device's status page.
//!
//! The buffer is owned, injected state rather than a process-wide singleton;
//! the embedder that registers with the logging facade holds one and forwards
//! every record here, beside its own write to the serial console.

use vstd::prelude::*;

use vstd::string::StrSliceExecFns;
use vstd::string::StringExecFns;

use crate::text::strip_prefix_str;

verus! {

/// Maximum number of lines kept; the oldest line falls out first.
pub const MAX_LOG_LINES: usize = 50;

/// Message severity, highest first.
#[derive(Clone, Copy, Debug, PartialEq, Eq, Structural)]
pub enum LogLevel {
    Error,
    Warn,
    Info,
    Debug,
    Trace,
}

/// Only messages at info severity or above are recorded.
pub fn log_level_enabled(level: LogLevel) -> (enabled: bool)
    ensures
        enabled == (level is Error || level is Warn || level is Info),
{
    matches!(level, LogLevel::Error | LogLevel::Warn | LogLevel::Info)
}

/// The one-character severity tag that heads each stored line.
pub open spec fn spec_level_tag(level: LogLevel) -> Seq<char> {
    match level {
        LogLevel::Error => "E"@,
        LogLevel::Warn => "W"@,
        LogLevel::Info => "I"@,
        LogLevel::Debug => "D"@,
        LogLevel::Trace => "T"@,
    }
}

pub fn level_tag(level: LogLevel) -> (tag: &'static str)
    ensures
        tag@ == spec_level_tag(level),
{
    match level {
        LogLevel::Error => "E",
        LogLevel::Warn => "W",
        LogLevel::Info => "I",
        LogLevel::Debug => "D",
        LogLevel::Trace => "T",
    }
}

/// A log target with this library's own crate-path prefix stripped, for a
/// cleaner display.
pub open spec fn spec_short_target(target: Seq<char>) -> Seq<char> {
    if "vrcbadge_core::"@.is_prefix_of(target) {
        target.skip("vrcbadge_core::"@.len() as int)
    } else if "vrcbadge_core"@.is_prefix_of(target) {
        target.skip("vrcbadge_core"@.len() as int)
    } else {
        target
    }
}

/// One stored line: the severity tag, the shortened target in brackets when
/// there is one, and the message.
pub open spec fn spec_format_line(level: LogLevel, target: Seq<char>, message: Seq<char>) -> Seq<
    char,
> {
    let short = spec_short_target(target);
    if short.len() == 0 {
        spec_level_tag(level) + " "@ + message
    } else {
        spec_level_tag(level) + " ["@ + short + "] "@ + message
    }
}

/// Format one line for the ring buffer.
pub fn format_line(level: LogLevel, target: &str, message: &str) -> (line: String)
    ensures
        line@ == spec_format_line(level, target@, message@),
{
    let short: &str = match strip_prefix_str(target, "vrcbadge_core::") {
        Some(rest) => rest,
        None => match strip_prefix_str(target, "vrcbadge_core") {
            Some(rest) => rest,
            None => target,
        },
    };
    let mut line = String::new();
    line.append(level_tag(level));
    if short.is_empty() {
        line.append(" ");
    } else {
        line.append(" [");
        line.append(short);
        line.append("] ");
    }
    line.append(message);
    proof {
        assert(line@ =~= spec_format_line(level, target@, message@));
    }
    line
}

/// The joined snapshot: all lines, oldest first, separated by newlines.
pub open spec fn spec_joined(lines: Seq<Seq<char>>) -> Seq<char>
    decreases lines.len(),
{
    if lines.len() == 0 {
        Seq::empty()
    } else if lines.len() == 1 {
        lines[0]
    } else {
        spec_joined(lines.drop_last()) + "\n"@ + lines.last()
    }
}

/// The bounded ring of recent log lines.
pub struct LogBuffer {
    lines: Vec<String>,
}

impl LogBuffer {
    /// The stored lines, oldest first.
    pub closed spec fn view(self) -> Seq<Seq<char>> {
        self.lines@.map_values(|s: String| s@)
    }

    pub open spec fn wf(self) -> bool {
        self.view().len() <= MAX_LOG_LINES
    }

    /// Append one line, dropping the oldest when the buffer is full.
    pub fn push_line(&mut self, line: String)
        requires
            old(self).wf(),
        ensures
            final(self).wf(),
            final(self)@ == (if old(self)@.len() < MAX_LOG_LINES {
                old(self)@.push(line@)
            } else {
                old(self)@.skip(1).push(line@)
            }),
    {
        if self.lines.len() >= MAX_LOG_LINES {
            self.lines.remove(0);
            proof {
                assert(self.lines@.map_values(|s: String| s@) =~= old(self)@.skip(1));
            }
        }
        let ghost before = self@;
        self.lines.push(line);
        proof {
            assert(self.lines@.map_values(|s: String| s@) =~= before.push(line@));
        }
    }

    /// Record one message: format it and store it, if its severity is
    /// recorded at all.
    pub fn log(&mut self, level: LogLevel, target: &str, message: &str)
        requires
            old(self).wf(),
        ensures
            final(self).wf(),
            final(self)@ == (if level is Error || level is Warn || level is Info {
                let line = spec_format_line(level, target@, message@);
                if old(self)@.len() < MAX_LOG_LINES {
                    old(self)@.push(line)
                } else {
                    old(self)@.skip(1).push(line)
                }
            } else {
                old(self)@
            }),
    {
        if log_level_enabled(level) {
            let line = format_line(level, target, message);
            self.push_line(line);
        }
    }

    /// All stored lines as one newline-joined string, oldest first.
    pub fn snapshot(&self) -> (s: String)
        ensures
            s@ == spec_joined(self@),
    {
        let mut s = String::new();
        let n = self.lines.len();
        let mut i: usize = 0;
        while i < n
            invariant
                i <= n,
                n == self@.len(),
                self@ == self.lines@.map_values(|t: String| t@),
                s@ == spec_joined(self@.take(i as int)),
            decreases n - i,
        {
            if i > 0 {
                s.append("\n");
            }
            s.append(self.lines[i].as_str());
            proof {
                assert(self@.take(i + 1).drop_last() =~= self@.take(i as int));
                if i == 0 {
                    assert(s@ =~= spec_joined(self@.take(i + 1)));
                } else {
                    assert(s@ =~= spec_joined(self@.take(i + 1)));
                }
            }
            i += 1;
        }
        proof {
            assert(self@.take(n as int) =~= self@);
        }
        s
    }
}

/// A fresh, empty log buffer.  Performed once at startup, before the
/// embedder routes its first record here.
pub fn init() -> (buffer: LogBuffer)
    ensures
        buffer.wf(),
        buffer@.len() == 0,
{
    let buffer = LogBuffer { lines: Vec::new() };
    proof {
        assert(buffer@ =~= Seq::<Seq<char>>::empty());
    }
    buffer
}

} // verus!
