//! What goes into the error log: which line an error is written as, and
//! when the log is cut down to its last lines.

use vstd::prelude::*;
use vstd::string::*;
use crate::scan::{lines, lines_of};
use crate::text::concat;

verus! {

/// An error to be logged: the category it falls under and what happened.
#[derive(Debug, PartialEq, Eq)]
pub struct LogRecord {
    pub category: String,
    pub message: String,
}

/// What `str::to_uppercase` makes of a text.
pub uninterp spec fn uppercase(s: Seq<char>) -> Seq<char>;

/// The upper-case form of `s`, by `str::to_uppercase` of the standard
/// library. The contract claims that it is a function of the text alone.
#[verifier::external_body]
fn to_uppercase(s: &str) -> (r: String)
    ensures
        r@ == uppercase(s@),
{
    s.to_uppercase()
}

/// Asks `chrono` for the time: `Utc::now()`, written by `to_rfc3339`.
/// Nothing is claimed of the text.
#[verifier::external_body]
fn utc_timestamp() -> String {
    chrono::Utc::now().to_rfc3339()
}

/// The size from which on the log is cut down: one mebibyte.
pub const ROTATE_ABOVE: u64 = 1048576;

/// The number of lines that are kept when the log is cut down.
pub const KEEP_LINES: usize = 1000;

/// The line that an error is written as at the time `timestamp`.
pub open spec fn log_line(timestamp: Seq<char>, category: Seq<char>, message: Seq<char>) -> Seq<char> {
    timestamp + " [ERROR] ["@ + category + "] "@ + message
}

/// The lines joined by line feeds, none after the last.
pub open spec fn joined(parts: Seq<Seq<char>>) -> Seq<char>
    decreases parts.len(),
{
    if parts.len() == 0 {
        Seq::empty()
    } else if parts.len() == 1 {
        parts[0]
    } else {
        joined(parts.drop_last()) + "\n"@ + parts.last()
    }
}

/// What a log of `size` bytes with the text `content` is cut down to: its
/// last thousand lines, where it is larger than a mebibyte and has more
/// lines than that. `None` says that the log stays as it is.
pub open spec fn rotated(content: Seq<char>, size: u64) -> Option<Seq<char>> {
    let all = lines(content);
    if size > ROTATE_ABOVE && all.len() > KEEP_LINES {
        Some(joined(all.skip(all.len() - KEEP_LINES)))
    } else {
        None
    }
}

/// An error of the file watcher.
pub fn log_file_watcher_error(error: &str) -> (r: LogRecord)
    ensures
        r.category@ == "FILE_WATCHER"@,
        r.message@ == error@,
{
    LogRecord { category: String::from_str("FILE_WATCHER"), message: String::from_str(error) }
}

/// An error of the configuration.
pub fn log_config_error(error: &str) -> (r: LogRecord)
    ensures
        r.category@ == "CONFIG"@,
        r.message@ == error@,
{
    LogRecord { category: String::from_str("CONFIG"), message: String::from_str(error) }
}

/// An error of the widget `component_name`; its category carries the
/// widget's name in upper case.
pub fn log_component_error(component_name: &str, error: &str) -> (r: LogRecord)
    ensures
        r.category@ == "COMPONENT_"@ + uppercase(component_name@),
        r.message@ == error@,
{
    let upper = to_uppercase(component_name);
    LogRecord { category: concat("COMPONENT_", upper.as_str()), message: String::from_str(error) }
}

/// An error of the system; where it came up is not written down.
pub fn log_system_error(_context: &str, error: &str) -> (r: LogRecord)
    ensures
        r.category@ == "SYSTEM"@,
        r.message@ == error@,
{
    LogRecord { category: String::from_str("SYSTEM"), message: String::from_str(error) }
}

impl LogRecord {
    /// The line that the error is written as at the time `timestamp`.
    pub fn line_at(&self, timestamp: &str) -> (r: String)
        ensures
            r@ == log_line(timestamp@, self.category@, self.message@),
    {
        let mut line = concat(timestamp, " [ERROR] [");
        line.append(self.category.as_str());
        line.append("] ");
        line.append(self.message.as_str());
        line
    }

    /// The line that the error is written as now.
    pub fn line(&self) -> (r: String)
        ensures
            exists|timestamp: Seq<char>| r@ == #[trigger] log_line(timestamp, self.category@, self.message@),
    {
        let timestamp = utc_timestamp();
        let line = self.line_at(timestamp.as_str());
        assert(line@ == log_line(timestamp@, self.category@, self.message@));
        line
    }
}

/// The heading that a run of the bar opens the log with.
pub fn start_banner(timestamp: &str) -> (r: String)
    ensures
        r@ == "\n\n=== catfoodBar started at "@ + timestamp@ + " ==="@,
{
    let mut line = concat("\n\n=== catfoodBar started at ", timestamp);
    line.append(" ===");
    line
}

/// The lines from `from` on, joined by line feeds.
fn join_from(all: &Vec<String>, from: usize) -> (r: String)
    requires
        from <= all.len(),
    ensures
        r@ == joined(all.deep_view().skip(from as int)),
{
    let ghost kept = all.deep_view().skip(from as int);
    let mut text = String::new();
    let mut i: usize = from;
    assert(kept.take(0) =~= Seq::<Seq<char>>::empty());
    while i < all.len()
        invariant
            from <= i <= all.len(),
            kept == all.deep_view().skip(from as int),
            text@ == joined(kept.take(i - from)),
        decreases all.len() - i,
    {
        proof {
            assert(kept.take(i - from + 1).drop_last() =~= kept.take(i - from));
            assert(kept.take(i - from + 1).last() == all[i as int]@);
            if i == from {
                assert(kept.take(0).len() == 0);
                assert(text@ =~= Seq::<char>::empty());
            }
        }
        if i > from {
            text.append("\n");
        }
        text.append(all[i].as_str());
        proof {
            if i == from {
                assert(text@ =~= all[i as int]@);
            }
        }
        i = i + 1;
    }
    assert(kept.take(i - from) =~= kept);
    text
}

/// What a log of `size` bytes with the text `content` is cut down to;
/// `None` where it stays as it is.
pub fn rotate_log_if_needed(content: &str, size: u64) -> (r: Option<String>)
    ensures
        r.deep_view() == rotated(content@, size),
{
    if size > ROTATE_ABOVE {
        let all = lines_of(content);
        if all.len() > KEEP_LINES {
            Some(join_from(&all, all.len() - KEEP_LINES))
        } else {
            None
        }
    } else {
        None
    }
}

} // verus!
