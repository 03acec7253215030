//! One owned token copied out of the native lexer's token records.

use colored::Colorize;
use vstd::prelude::*;
use vstd::string::StrSliceExecFns;
use vstd::string::StringExecFns;

use crate::location::Location;
use crate::range::Range;
use crate::text::push_char;

verus! {

/// How one character is shown inside a quoted token value.
pub open spec fn escape_char(c: char) -> Seq<char> {
    if c == '\\' {
        "\\\\"@
    } else if c == '\n' {
        "\\n"@
    } else if c == '\r' {
        "\\r"@
    } else if c == '\t' {
        "\\t"@
    } else if c == '"' {
        "\\\""@
    } else {
        seq![c]
    }
}

/// The escaped rendering of a whole value, character by character.
pub open spec fn escape_seq(s: Seq<char>) -> Seq<char>
    decreases s.len(),
{
    if s.len() == 0 {
        Seq::empty()
    } else {
        escape_seq(s.drop_last()) + escape_char(s.last())
    }
}

/// The escaped rendering of a string, for quoting inside inspect output.
pub fn escape_str(v: &str) -> (r: String)
    ensures
        r@ == escape_seq(v@),
{
    let mut out = String::new();
    let n = v.unicode_len();
    let mut i: usize = 0;
    while i < n
        invariant
            i <= n,
            n == v@.len(),
            out@ == escape_seq(v@.subrange(0, i as int)),
        decreases n - i,
    {
        let c = v.get_char(i);
        if c == '\\' {
            out.append("\\\\");
        } else if c == '\n' {
            out.append("\\n");
        } else if c == '\r' {
            out.append("\\r");
        } else if c == '\t' {
            out.append("\\t");
        } else if c == '"' {
            out.append("\\\"");
        } else {
            push_char(&mut out, c);
        }
        proof {
            let sub = v@.subrange(0, i + 1 as int);
            assert(sub.drop_last() =~= v@.subrange(0, i as int));
            assert(sub.last() == v@[i as int]);
            assert(out@ =~= escape_seq(sub));
        }
        i = i + 1;
    }
    proof {
        assert(v@.subrange(0, v@.len() as int) =~= v@);
    }
    out
}

/// One token: its native type label, the exact source substring it spans, and
/// where it sits in the source. Fully owned; once marshalled it keeps no tie
/// to the native token array it was copied from.
#[derive(Debug, PartialEq, Eq)]
pub struct Token {
    pub token_type: String,
    pub value: String,
    pub location: Location,
    pub range: Range,
}

impl Token {
    pub fn new(token_type: String, value: String, location: Location, range: Range) -> (t: Token)
        ensures
            t == (Token { token_type, value, location, range }),
    {
        Token { token_type, value, location, range }
    }

    /// The end-of-file sentinel the native lexer closes every token stream
    /// with: the EOF type label, an empty value, and a zero-length span.
    pub open spec fn spec_is_eof_sentinel(self) -> bool {
        &&& self.token_type@ == "TOKEN_EOF"@
        &&& self.value@.len() == 0
        &&& self.range.from == self.range.to
    }

    /// What `inspect` shows as the token's value.
    pub open spec fn spec_display_value(self) -> Seq<char> {
        if self.token_type@ == "TOKEN_EOF"@ && self.value@.len() == 0 {
            "<EOF>"@
        } else {
            escape_seq(self.value@)
        }
    }

    /// What `inspect` renders.
    pub open spec fn spec_inspect(self) -> Seq<char> {
        "#<Herb::Token type=\""@ + self.token_type@ + "\" value=\""@ + self.spec_display_value()
            + "\" range="@ + self.range.spec_inspect() + " start="@
            + self.location.start.spec_inspect() + " end="@ + self.location.end.spec_inspect()
            + ">"@
    }

    /// The token's value with backslashes, newlines, carriage returns, tabs
    /// and double quotes escaped.
    fn escaped_value(&self) -> (r: String)
        ensures
            r@ == escape_seq(self.value@),
    {
        escape_str(self.value.as_str())
    }

    /// One line describing the token, e.g.
    /// `#<Herb::Token type="TOKEN_HTML_TAG_START" value="<" range=[0, 1] start=(1:0) end=(1:1)>`.
    pub fn inspect(&self) -> (s: String)
        ensures
            s@ == self.spec_inspect(),
    {
        let eof_label: String = "TOKEN_EOF".to_owned();
        let value_empty = self.value.as_str().unicode_len() == 0;
        let display_value: String = if self.token_type == eof_label && value_empty {
            "<EOF>".to_owned()
        } else {
            self.escaped_value()
        };
        let mut s: String = "#<Herb::Token type=\"".to_owned();
        s.append(self.token_type.as_str());
        s.append("\" value=\"");
        s.append(display_value.as_str());
        s.append("\" range=");
        let range = self.range.inspect();
        s.append(range.as_str());
        s.append(" start=");
        let start = self.location.start.inspect();
        s.append(start.as_str());
        s.append(" end=");
        let end = self.location.end.inspect();
        s.append(end.as_str());
        s.append(">");
        proof {
            assert(s@ =~= self.spec_inspect());
        }
        s
    }

    /// The token's value as it appears in a rendered tree: the quoted escaped
    /// value in green, the location dimmed. Colorization is presentation only
    /// and may add escape sequences around each part, never remove text.
    pub fn tree_inspect(&self) -> (s: String)
        ensures
            s@.len() > 0,
    {
        let mut quoted: String = "\"".to_owned();
        let escaped = self.escaped_value();
        quoted.append(escaped.as_str());
        quoted.append("\"");
        let mut loc_part: String = "(location: ".to_owned();
        let loc = self.location.inspect();
        loc_part.append(loc.as_str());
        loc_part.append(")");
        let mut s = green_str(quoted.as_str());
        s.append(" ");
        let dim = dimmed_str(loc_part.as_str());
        s.append(dim.as_str());
        s
    }
}

/// Relies on colored's `Colorize::green` and the `Display` of its
/// `ColoredString`: the rendered text is the input, wrapped in color escape
/// sequences when coloring is active, so it is never shorter than the input.
#[verifier::external_body]
fn green_str(s: &str) -> (r: String)
    ensures
        r@.len() >= s@.len(),
{
    format!("{}", s.green())
}

/// Relies on colored's `Colorize::dimmed` and the `Display` of its
/// `ColoredString`: the rendered text is the input, wrapped in color escape
/// sequences when coloring is active, so it is never shorter than the input.
#[verifier::external_body]
fn dimmed_str(s: &str) -> (r: String)
    ensures
        r@.len() >= s@.len(),
{
    format!("{}", s.dimmed())
}

} // verus!
