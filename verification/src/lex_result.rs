//! The owned result of lexing: every token, in source order.

use vstd::prelude::*;
use vstd::string::StringExecFns;

use crate::token::Token;

verus! {

/// What `inspect` renders for a token list: each token's line, joined by
/// newlines.
pub open spec fn spec_tokens_inspect(s: Seq<Token>) -> Seq<char>
    decreases s.len(),
{
    if s.len() == 0 {
        Seq::empty()
    } else if s.len() == 1 {
        s[0].spec_inspect()
    } else {
        spec_tokens_inspect(s.drop_last()) + "\n"@ + s.last().spec_inspect()
    }
}

/// All tokens produced by one lex operation, in source order. The native
/// lexer closes every stream with an end-of-file sentinel token, so a
/// well-formed result ends with one.
#[derive(Debug)]
pub struct LexResult {
    pub tokens: Vec<Token>,
}

impl LexResult {
    /// The invariant the native lexer grants: the stream is non-empty and its
    /// final token is the end-of-file sentinel.
    pub open spec fn wf(self) -> bool {
        self.tokens@.len() > 0 && self.tokens@.last().spec_is_eof_sentinel()
    }

    pub fn new(tokens: Vec<Token>) -> (r: LexResult)
        ensures
            r.tokens == tokens,
    {
        LexResult { tokens }
    }

    pub fn tokens(&self) -> (ts: &[Token])
        ensures
            ts@ == self.tokens@,
    {
        self.tokens.as_slice()
    }

    /// One line per token, joined by newlines.
    pub fn inspect(&self) -> (s: String)
        ensures
            s@ == spec_tokens_inspect(self.tokens@),
    {
        let mut out = String::new();
        let mut i: usize = 0;
        while i < self.tokens.len()
            invariant
                i <= self.tokens@.len(),
                out@ == spec_tokens_inspect(self.tokens@.subrange(0, i as int)),
            decreases self.tokens@.len() - i,
        {
            if i > 0 {
                out.append("\n");
            }
            let line = self.tokens[i].inspect();
            out.append(line.as_str());
            proof {
                let sub = self.tokens@.subrange(0, i + 1 as int);
                assert(sub.drop_last() =~= self.tokens@.subrange(0, i as int));
                assert(sub.last() == self.tokens@[i as int]);
                assert(out@ =~= spec_tokens_inspect(sub));
            }
            i = i + 1;
        }
        proof {
            assert(self.tokens@.subrange(0, self.tokens@.len() as int) =~= self.tokens@);
        }
        out
    }
}

} // verus!
