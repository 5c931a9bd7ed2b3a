//! Classification of one line read from the controlling terminal.
//!
//! The command loop reads whole lines, terminator included.  A line that is
//! only the terminator is ignored, the exact reserved literal `"quit"`
//! followed by the terminator ends the session, and anything else is
//! forwarded to the isolated context as SQL text, unchanged.

use vstd::prelude::*;

verus! {

/// What one input line asks the command loop to do.
#[derive(Clone, Copy, Debug, PartialEq, Eq, Structural)]
pub enum LineClass {
    /// The line holds only the line terminator: ignore it and prompt again.
    Blank,
    /// The line is exactly the reserved exit literal: end the loop.
    ExitRequest,
    /// Anything else: forward the line as SQL text.
    Statement,
}

/// How a line is classified.  Only the exact reserved literal, with its
/// terminator and in its exact case, asks for exit; every other non-blank
/// line is SQL text.
pub open spec fn line_class(line: Seq<char>) -> LineClass {
    if line == "\n"@ {
        LineClass::Blank
    } else if line == "quit\n"@ {
        LineClass::ExitRequest
    } else {
        LineClass::Statement
    }
}

/// Classify one input line, read with its terminator still attached.
pub fn classify_line(line: &String) -> (c: LineClass)
    ensures
        c == line_class(line@),
{
    let blank: String = "\n".to_owned();
    let sentinel: String = "quit\n".to_owned();
    if *line == blank {
        LineClass::Blank
    } else if *line == sentinel {
        LineClass::ExitRequest
    } else {
        LineClass::Statement
    }
}

} // verus!
