//! Log lines by severity.
//!
//! Each function gives the line to print for a message of its severity, or
//! nothing when [`LOG_LEVEL`] leaves that severity out. Printing the line is
//! up to the caller.

use vstd::prelude::*;

verus! {

/// The severities that are logged: 0 none, 1 errors, 2 warnings too, 3 also
/// information, 4 also debugging, 5 everything.
pub const LOG_LEVEL: u8 = 5;

/// The line for a message whose severity has the number `level`: the tag and
/// then the message, or nothing when [`LOG_LEVEL`] is below `level`.
pub open spec fn entry(level: u8, tag: Seq<char>, message: Seq<char>) -> Option<Seq<char>> {
    if LOG_LEVEL < level {
        None
    } else {
        Some(tag + message)
    }
}

/// Whether `line` holds the text `expected`, or is absent as `expected` is.
pub open spec fn reads(line: Option<String>, expected: Option<Seq<char>>) -> bool {
    match expected {
        Some(text) => (line matches Some(written) && written@ == text),
        None => line is None,
    }
}

fn tagged(level: u8, tag: &'static str, message: &'static str) -> (line: Option<String>)
    ensures
        reads(line, entry(level, tag@, message@)),
{
    if LOG_LEVEL < level {
        return None;
    }
    let mut text = String::from_str(tag);
    text.append(message);
    Some(text)
}

/// The line for an error.
pub fn error(message: &'static str) -> (line: Option<String>)
    ensures
        reads(line, entry(1, "ERRO: "@, message@)),
{
    tagged(1, "ERRO: ", message)
}

/// The line for a warning.
pub fn warn(message: &'static str) -> (line: Option<String>)
    ensures
        reads(line, entry(2, "WARN: "@, message@)),
{
    tagged(2, "WARN: ", message)
}

/// The line for a piece of information.
pub fn info(message: &'static str) -> (line: Option<String>)
    ensures
        reads(line, entry(3, "INFO: "@, message@)),
{
    tagged(3, "INFO: ", message)
}

/// The line for a debugging message.
pub fn debug(message: &'static str) -> (line: Option<String>)
    ensures
        reads(line, entry(4, "DEBG: "@, message@)),
{
    tagged(4, "DEBG: ", message)
}

/// The line for a message of the lowest severity.
pub fn verbose(message: &'static str) -> (line: Option<String>)
    ensures
        reads(line, entry(5, "VERB: "@, message@)),
{
    tagged(5, "VERB: ", message)
}

} // verus!
