//! Log records, level emojis and the text of the "terminal too small" screen.

use vstd::prelude::*;
use vstd::string::*;
use crate::text::{decimal, push_decimal, push_str};

verus! {

/// A log verbosity level, from `Off` (nothing) to `Trace` (everything).
#[derive(Clone, Copy, Debug, PartialEq, Eq, Structural)]
pub enum Level {
    Off,
    Error,
    Warn,
    Info,
    Debug,
    Trace,
}

/// One log line for the dashboard's log pane: its level, its target and its
/// message.
pub struct LogRecord {
    pub level: Level,
    pub target: String,
    pub message: String,
}

/// The record that `level`, `target` and `msg` make: the message is `msg`
/// after one space.
pub open spec fn is_record_of(r: LogRecord, level: Level, target: Seq<char>, msg: Seq<char>) -> bool {
    &&& r.level == level
    &&& r.target@ == target
    &&& r.message@ == " "@ + msg
}

fn make_record(level: Level, target: &str, msg: String) -> (r: LogRecord)
    ensures
        is_record_of(r, level, target@, msg@),
{
    let mut message = String::from_str(" ");
    push_str(&mut message, msg.as_str());
    LogRecord { level, target: String::from_str(target), message }
}

/// An error record with target "error".
pub fn log_error(msg: String) -> (r: LogRecord)
    ensures
        is_record_of(r, Level::Error, "error"@, msg@),
{
    make_record(Level::Error, "error", msg)
}

/// A warning record with target "warn".
pub fn log_warning(msg: String) -> (r: LogRecord)
    ensures
        is_record_of(r, Level::Warn, "warn"@, msg@),
{
    make_record(Level::Warn, "warn", msg)
}

/// A trace record with target "trace".
pub fn log_trace(msg: String) -> (r: LogRecord)
    ensures
        is_record_of(r, Level::Trace, "trace"@, msg@),
{
    make_record(Level::Trace, "trace", msg)
}

/// A debug record with target "debug".
pub fn log_debug(msg: String) -> (r: LogRecord)
    ensures
        is_record_of(r, Level::Debug, "debug"@, msg@),
{
    make_record(Level::Debug, "debug", msg)
}

/// An info record with target "info".
pub fn log_info(msg: String) -> (r: LogRecord)
    ensures
        is_record_of(r, Level::Info, "info"@, msg@),
{
    make_record(Level::Info, "info", msg)
}

/// The emoji shown beside a level; `Off` has none.
pub open spec fn emoji_of(level: Level) -> Seq<char> {
    match level {
        Level::Error => "😥"@,
        Level::Warn => "😁"@,
        Level::Trace => "😑"@,
        Level::Debug => "😌"@,
        Level::Info => "🫡"@,
        Level::Off => Seq::empty(),
    }
}

/// The emoji of a level.
pub fn get_levelfilter_emoji(level: Level) -> (r: String)
    ensures
        r@ == emoji_of(level),
{
    match level {
        Level::Error => String::from_str("😥"),
        Level::Warn => String::from_str("😁"),
        Level::Trace => String::from_str("😑"),
        Level::Debug => String::from_str("😌"),
        Level::Info => String::from_str("🫡"),
        Level::Off => String::new(),
    }
}

/// The fewest columns the dashboard is drawn in.
pub const MIN_WIDTH: u16 = 80;

/// The fewest rows the dashboard is drawn in.
pub const MIN_HEIGHT: u16 = 21;

/// What the "terminal too small" screen says for a terminal of `width` by
/// `height` cells.
pub open spec fn error_label(width: nat, height: nat) -> Seq<char> {
    decimal(width) + "x"@ + decimal(height) + " - please resize 😉 to at least 80x21"@
}

/// The label of the "terminal too small" screen.
pub fn error_ui(width: u16, height: u16) -> (r: String)
    ensures
        r@ == error_label(width as nat, height as nat),
{
    let mut s = String::new();
    push_decimal(&mut s, width as u64);
    push_str(&mut s, "x");
    push_decimal(&mut s, height as u64);
    push_str(&mut s, " - please resize 😉 to at least 80x21");
    s
}

} // verus!
