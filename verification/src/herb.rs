//! The top-level operations and the lifetime discipline around one native
//! call.
//!
//! Each operation runs encode → native call → marshal → free → return. The
//! encode step is [`EncodedSource::new`]; the native call itself is the
//! boundary code's job, and its outcome comes back here as a plain value —
//! `None` where the native entry point returned null. The completion
//! functions below marshal that outcome and decide the free: their
//! `free_native_buffer` flag is true exactly when a native buffer was
//! obtained, on every path — success, or a conversion failure discovered
//! halfway through marshalling — so each buffer is freed exactly once and
//! none is freed that was never obtained.

use vstd::prelude::*;
use vstd::string::StrSliceExecFns;
use vstd::string::StringExecFns;

use crate::convert::{convert_document_node, convertible_node, node_matches, token_from_c, token_matches};
use crate::lex_result::LexResult;
use crate::native::{raw_token_is_eof, spec_opt_text, RawNode, RawToken, NODE_DOCUMENT};
use crate::nodes::AnyNode;
use crate::parse_result::ParseResult;
use crate::text::{decimal_seq, decimal_string};
use crate::token::Token;

verus! {

/// Why a top-level operation failed. Grammar diagnostics are never one of
/// these: they ride inside a successful [`ParseResult`].
#[derive(Debug, Clone, Copy, PartialEq, Eq, Structural)]
pub enum HerbError {
    /// The source text cannot cross the boundary: it holds an interior NUL
    /// byte at this character position. Fails before any native call.
    Encoding { position: usize },
    /// The native entry point reported failure by returning null. Nothing
    /// was allocated, so nothing is freed.
    NativeCallFailed,
    /// The native buffer did not match this layer's node catalogue — an
    /// internal mismatch, not a malformed input. The buffer is still freed
    /// before the failure is reported.
    Conversion,
}

impl HerbError {
    /// What `message` renders for each failure.
    pub open spec fn spec_message(self) -> Seq<char> {
        match self {
            HerbError::Encoding { position } => "nul byte found in provided data at position: "@
                + decimal_seq(position as nat),
            HerbError::NativeCallFailed => "the native entry point returned null"@,
            HerbError::Conversion => "Failed to convert AST"@,
        }
    }

    pub fn message(&self) -> (s: String)
        ensures
            s@ == self.spec_message(),
    {
        match self {
            HerbError::Encoding { position } => {
                let mut s: String = "nul byte found in provided data at position: ".to_owned();
                let p = decimal_string(*position as u64);
                s.append(p.as_str());
                proof {
                    assert(s@ =~= self.spec_message());
                }
                s
            },
            HerbError::NativeCallFailed => "the native entry point returned null".to_owned(),
            HerbError::Conversion => "Failed to convert AST".to_owned(),
        }
    }
}

/// Source text that is safe to hand to the native library as a C string: it
/// holds no interior NUL that the native side would read as the terminator.
pub struct EncodedSource {
    text: String,
}

impl EncodedSource {
    /// The text this value carries.
    pub closed spec fn spec_text(self) -> Seq<char> {
        self.text@
    }

    /// The encode step of every operation: succeeds exactly when the text
    /// holds no interior NUL, and fails — before any native call — with the
    /// position of the first NUL otherwise.
    pub fn new(source: &str) -> (r: Result<EncodedSource, HerbError>)
        ensures
            match r {
                Ok(enc) => enc.spec_text() == source@ && !source@.contains('\0'),
                Err(e) => {
                    &&& source@.contains('\0')
                    &&& e matches HerbError::Encoding { position } && 0 <= position
                        < source@.len() && source@[position as int] == '\0'
                },
            },
    {
        let n = source.unicode_len();
        let mut i: usize = 0;
        while i < n
            invariant
                i <= n,
                n == source@.len(),
                forall|j: int| 0 <= j < i ==> source@[j] != '\0',
            decreases n - i,
        {
            if source.get_char(i) == '\0' {
                return Err(HerbError::Encoding { position: i });
            }
            i = i + 1;
        }
        proof {
            assert(!source@.contains('\0'));
        }
        Ok(EncodedSource { text: source.to_owned() })
    }

    pub fn as_str(&self) -> (s: &str)
        ensures
            s@ == self.spec_text(),
    {
        self.text.as_str()
    }

    /// An owned copy of the text.
    pub fn to_text(&self) -> (s: String)
        ensures
            s@ == self.spec_text(),
    {
        self.text.clone()
    }
}

/// What a completed operation hands back to the boundary code that drove it:
/// the operation's result, and whether the native buffer obtained for the
/// operation must now be freed. The contracts below pin the flag to "a buffer
/// was obtained", on every path, so following it frees each buffer exactly
/// once and never touches a buffer that was never there.
pub struct Completion<T> {
    pub result: T,
    pub free_native_buffer: bool,
}

/// Completes the lex operation around one native call. The boundary code
/// encodes the source, performs the native lex call, and hands over the
/// outcome: `None` for a null token array — native-side failure — or else
/// the records read out of the array, in order. Either every record becomes
/// an owned token or the operation fails; it never partially succeeds, and
/// the native array is freed exactly when one was obtained.
pub fn lex(reply: Option<Vec<RawToken>>) -> (c: Completion<Result<LexResult, HerbError>>)
    requires
        reply matches Some(ts) ==> forall|i: int| 0 <= i < ts@.len() ==> (#[trigger] ts@[i]).wf(),
    ensures
        c.free_native_buffer == (reply is Some),
        reply is None ==> (c.result matches Err(e) && e == HerbError::NativeCallFailed),
        reply matches Some(ts) ==> c.result matches Ok(lr) && lr.tokens@.len() == ts@.len() && (
        forall|i: int| 0 <= i < ts@.len() ==> token_matches(ts@[i], #[trigger] lr.tokens@[i])) && (
        ts@.len() > 0 && raw_token_is_eof(ts@.last()) ==> lr.wf()),
{
    match reply {
        Option::None => Completion {
            result: Err(HerbError::NativeCallFailed),
            free_native_buffer: false,
        },
        Option::Some(ts) => {
            let mut tokens: Vec<Token> = Vec::new();
            let mut i: usize = 0;
            while i < ts.len()
                invariant
                    i <= ts@.len(),
                    tokens@.len() == i,
                    forall|j: int| 0 <= j < ts@.len() ==> (#[trigger] ts@[j]).wf(),
                    forall|j: int| 0 <= j < i ==> token_matches(ts@[j], #[trigger] tokens@[j]),
                decreases ts@.len() - i,
            {
                let t = token_from_c(&ts[i]);
                tokens.push(t);
                i = i + 1;
            }
            Completion { result: Ok(LexResult::new(tokens)), free_native_buffer: true }
        },
    }
}

/// Completes the parse operation around one native call. The boundary code
/// encodes the source, performs the native parse call, and hands over the
/// outcome: `None` for a null AST root, or else the root node read out of the
/// native tree. A convertible document root becomes a [`ParseResult`] that
/// carries the grammar diagnostics inside it; anything else is a conversion
/// failure. Either way the native tree is freed exactly when one was
/// obtained — in particular it is still freed when conversion fails.
pub fn parse(source: &EncodedSource, reply: Option<RawNode>) -> (c: Completion<
    Result<ParseResult, HerbError>,
>)
    requires
        reply matches Some(raw) ==> raw.wf(),
    ensures
        c.free_native_buffer == (reply is Some),
        reply is None ==> (c.result matches Err(e) && e == HerbError::NativeCallFailed),
        reply matches Some(raw) ==> {
            if raw.node_type == NODE_DOCUMENT && convertible_node(raw) {
                c.result matches Ok(pr) && node_matches(raw, AnyNode::DocumentNode(pr.value))
                    && pr.source@ == source.spec_text() && pr.errors@.len() == 0
            } else {
                c.result matches Err(e) && e == HerbError::Conversion
            }
        },
{
    match reply {
        Option::None => Completion {
            result: Err(HerbError::NativeCallFailed),
            free_native_buffer: false,
        },
        Option::Some(raw) => match convert_document_node(&raw) {
            Option::Some(doc) => Completion {
                result: Ok(ParseResult::new(doc, source.to_text(), Vec::new())),
                free_native_buffer: true,
            },
            Option::None => Completion {
                result: Err(HerbError::Conversion),
                free_native_buffer: true,
            },
        },
    }
}

/// Completes the embedded-script extraction around one native call. The
/// native call returns a freshly allocated rewrite of the source with the
/// markup blanked; null means "no applicable content" and yields the empty
/// string — a success, not a failure. The returned buffer is freed exactly
/// when one was obtained.
pub fn extract_ruby(reply: Option<String>) -> (c: Completion<Result<String, HerbError>>)
    ensures
        c.free_native_buffer == (reply is Some),
        c.result matches Ok(s) && s@ == spec_opt_text(reply),
{
    match reply {
        Option::Some(text) => Completion { result: Ok(text), free_native_buffer: true },
        Option::None => Completion { result: Ok(String::new()), free_native_buffer: false },
    }
}

/// Completes the markup extraction around one native call: the exact
/// counterpart of [`extract_ruby`], for the rewrite that blanks the
/// embedded-script regions instead.
pub fn extract_html(reply: Option<String>) -> (c: Completion<Result<String, HerbError>>)
    ensures
        c.free_native_buffer == (reply is Some),
        c.result matches Ok(s) && s@ == spec_opt_text(reply),
{
    match reply {
        Option::Some(text) => Completion { result: Ok(text), free_native_buffer: true },
        Option::None => Completion { result: Ok(String::new()), free_native_buffer: false },
    }
}

/// The version of the native parser library this layer is built against. The
/// native accessor hands back a static string owned by the library itself;
/// it is never freed by this layer.
pub open spec fn spec_herb_version() -> Seq<char> {
    "0.7.5"@
}

/// The version of the embedded-script grammar the native library carries.
pub open spec fn spec_prism_version() -> Seq<char> {
    "1.6.0"@
}

pub fn herb_version() -> (s: String)
    ensures
        s@ == spec_herb_version(),
{
    "0.7.5".to_owned()
}

pub fn prism_version() -> (s: String)
    ensures
        s@ == spec_prism_version(),
{
    "1.6.0".to_owned()
}

/// What `version` renders: the library and grammar versions on one line.
pub open spec fn spec_version() -> Seq<char> {
    "herb rust v"@ + spec_herb_version() + ", libprism v"@ + spec_prism_version() + ", libherb v"@
        + spec_herb_version() + " (Rust FFI)"@
}

pub fn version() -> (s: String)
    ensures
        s@ == spec_version(),
{
    let mut s: String = "herb rust v".to_owned();
    let hv = herb_version();
    s.append(hv.as_str());
    s.append(", libprism v");
    let pv = prism_version();
    s.append(pv.as_str());
    s.append(", libherb v");
    let hv2 = herb_version();
    s.append(hv2.as_str());
    s.append(" (Rust FFI)");
    proof {
        assert(s@ =~= spec_version());
    }
    s
}

} // verus!
