//! The owned result of parsing: the document tree, the source it came from,
//! and any diagnostics not attached to a node.

use vstd::prelude::*;

use crate::errors::AnyError;
use crate::nodes::{extend_errors, DocumentNode};

verus! {

/// What one successful parse operation hands back. Grammar diagnostics are
/// ordinary data inside this value — never an operation failure; whether the
/// parse "failed" is derived from the tree, not stored.
#[derive(Debug)]
pub struct ParseResult {
    pub value: DocumentNode,
    pub source: String,
    pub errors: Vec<AnyError>,
}

impl ParseResult {
    /// Every diagnostic the result carries: the top-level ones, then the
    /// tree's, pre-order.
    pub open spec fn spec_recursive_errors(self) -> Seq<AnyError> {
        self.errors@ + self.value.spec_recursive_errors()
    }

    /// Failure means some diagnostic exists, anywhere in the result.
    pub open spec fn spec_failed(self) -> bool {
        self.spec_recursive_errors().len() != 0
    }

    /// Success is exactly the absence of every diagnostic.
    pub open spec fn spec_success(self) -> bool {
        self.spec_recursive_errors().len() == 0
    }

    pub fn new(value: DocumentNode, source: String, errors: Vec<AnyError>) -> (r: ParseResult)
        ensures
            r.value == value,
            r.source == source,
            r.errors == errors,
    {
        ParseResult { value, source, errors }
    }

    /// The diagnostics attached to no node, in native order.
    pub fn errors(&self) -> (es: &[AnyError])
        ensures
            es@ == self.errors@,
    {
        self.errors.as_slice()
    }

    /// One pre-order walk: the top-level diagnostics, then this document's
    /// own, then each child subtree's, children left to right. The sequence
    /// is a function of the result alone, so repeated calls return the same
    /// sequence in the same order.
    pub fn recursive_errors(&self) -> (v: Vec<AnyError>)
        ensures
            v@ == self.spec_recursive_errors(),
    {
        let mut out: Vec<AnyError> = Vec::new();
        extend_errors(&mut out, &self.errors);
        let mut tree = self.value.recursive_errors();
        out.append(&mut tree);
        proof {
            assert(out@ =~= self.spec_recursive_errors());
        }
        out
    }

    pub fn failed(&self) -> (b: bool)
        ensures
            b == self.spec_failed(),
    {
        let errs = self.recursive_errors();
        errs.len() != 0
    }

    pub fn success(&self) -> (b: bool)
        ensures
            b == self.spec_success(),
    {
        let errs = self.recursive_errors();
        errs.len() == 0
    }

    /// Renders the document tree.
    pub fn inspect(&self) -> (s: String)
        ensures
            s@.len() > 0,
    {
        self.value.tree_inspect()
    }
}

/// Law: success and failure are exact complements, and both are decided by
/// the recursive error aggregation alone — a result succeeds exactly when
/// that aggregation is empty.
pub proof fn lemma_success_failure_duality(r: ParseResult)
    ensures
        r.spec_success() <==> !r.spec_failed(),
        r.spec_success() <==> r.spec_recursive_errors() =~= Seq::<AnyError>::empty(),
{
}

} // verus!
