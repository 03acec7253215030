//! A byte-offset span in the source text.

use vstd::prelude::*;
use vstd::string::StringExecFns;

use crate::text::{decimal_seq, decimal_string};

verus! {

/// A half-open byte span `[from, to)` into the source, with `to >= from`.
#[derive(Debug, Clone, Copy, PartialEq, Eq, Structural)]
pub struct Range {
    pub from: usize,
    pub to: usize,
}

impl Range {
    /// The span's invariant: the end offset never precedes the start offset.
    pub open spec fn wf(self) -> bool {
        self.from <= self.to
    }

    pub fn new(from: usize, to: usize) -> (r: Range)
        requires
            from <= to,
        ensures
            r.from == from,
            r.to == to,
            r.wf(),
    {
        Range { from, to }
    }

    /// How many bytes the span covers.
    pub fn length(&self) -> (n: usize)
        requires
            self.wf(),
        ensures
            n == self.to - self.from,
    {
        self.to - self.from
    }

    /// What `inspect` renders: `[from, to]`.
    pub open spec fn spec_inspect(self) -> Seq<char> {
        "["@ + decimal_seq(self.from as nat) + ", "@ + decimal_seq(self.to as nat) + "]"@
    }

    pub fn inspect(&self) -> (s: String)
        ensures
            s@ == self.spec_inspect(),
    {
        let mut s = String::new();
        s.append("[");
        let from = decimal_string(self.from as u64);
        s.append(from.as_str());
        s.append(", ");
        let to = decimal_string(self.to as u64);
        s.append(to.as_str());
        s.append("]");
        proof {
            assert(s@ =~= self.spec_inspect());
        }
        s
    }
}

} // verus!
