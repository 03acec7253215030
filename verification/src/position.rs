//! A point in the source text, as the native parser reports it.

use vstd::prelude::*;
use vstd::string::StringExecFns;

use crate::text::{decimal_seq, decimal_string};

verus! {

/// A 1-based line / 0-based column pair locating one point in the source.
/// Plain data with no owned resources; copying it never touches native memory.
#[derive(Debug, Clone, Copy, PartialEq, Eq, Structural)]
pub struct Position {
    pub line: u32,
    pub column: u32,
}

impl Position {
    pub fn new(line: u32, column: u32) -> (p: Position)
        ensures
            p.line == line,
            p.column == column,
    {
        Position { line, column }
    }

    /// True when `self` comes no later than `other` in document order.
    pub open spec fn spec_le(self, other: Position) -> bool {
        self.line < other.line || (self.line == other.line && self.column <= other.column)
    }

    /// What `inspect` renders: `(line:column)`.
    pub open spec fn spec_inspect(self) -> Seq<char> {
        "("@ + decimal_seq(self.line as nat) + ":"@ + decimal_seq(self.column as nat) + ")"@
    }

    pub fn inspect(&self) -> (s: String)
        ensures
            s@ == self.spec_inspect(),
    {
        let mut s = String::new();
        s.append("(");
        let line = decimal_string(self.line as u64);
        s.append(line.as_str());
        s.append(":");
        let column = decimal_string(self.column as u64);
        s.append(column.as_str());
        s.append(")");
        proof {
            assert(s@ =~= self.spec_inspect());
        }
        s
    }
}

} // verus!
