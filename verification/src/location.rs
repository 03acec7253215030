//! A start/end pair of positions locating a token or node in the source.

use vstd::prelude::*;
use vstd::string::StringExecFns;

use crate::position::Position;

verus! {

/// Where a token or node sits in the source, as two positions in document
/// order: `end` never precedes `start`.
#[derive(Debug, Clone, Copy, PartialEq, Eq, Structural)]
pub struct Location {
    pub start: Position,
    pub end: Position,
}

impl Location {
    /// The location's invariant: `start` comes no later than `end`.
    pub open spec fn wf(self) -> bool {
        self.start.spec_le(self.end)
    }

    pub fn new(start: Position, end: Position) -> (l: Location)
        requires
            start.spec_le(end),
        ensures
            l.start == start,
            l.end == end,
            l.wf(),
    {
        Location { start, end }
    }

    /// What `inspect` renders: `(start.line:start.column)-(end.line:end.column)`.
    pub open spec fn spec_inspect(self) -> Seq<char> {
        self.start.spec_inspect() + "-"@ + self.end.spec_inspect()
    }

    pub fn inspect(&self) -> (s: String)
        ensures
            s@ == self.spec_inspect(),
    {
        let mut s = self.start.inspect();
        s.append("-");
        let end = self.end.inspect();
        s.append(end.as_str());
        proof {
            assert(s@ =~= self.spec_inspect());
        }
        s
    }
}

} // verus!
