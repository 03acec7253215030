//! The owned form of the diagnostics the native parser attaches to nodes.

use vstd::prelude::*;
use vstd::string::StringExecFns;

use crate::location::Location;

verus! {

/// The closed catalogue of diagnostic kinds the native grammar reports.
#[derive(Debug, Clone, Copy, PartialEq, Eq, Structural)]
pub enum ErrorType {
    ParseError,
    UnexpectedToken,
    UnclosedElement,
    MissingOpeningTag,
    MissingClosingTag,
    TagNamesMismatch,
    QuotesMismatch,
    VoidElementClosingTag,
    RubyParse,
}

impl ErrorType {
    /// The native discriminant label for the kind, e.g. `UNCLOSED_ELEMENT_ERROR`.
    pub open spec fn spec_label(self) -> Seq<char> {
        match self {
            ErrorType::ParseError => "PARSE_ERROR"@,
            ErrorType::UnexpectedToken => "UNEXPECTED_TOKEN_ERROR"@,
            ErrorType::UnclosedElement => "UNCLOSED_ELEMENT_ERROR"@,
            ErrorType::MissingOpeningTag => "MISSING_OPENING_TAG_ERROR"@,
            ErrorType::MissingClosingTag => "MISSING_CLOSING_TAG_ERROR"@,
            ErrorType::TagNamesMismatch => "TAG_NAMES_MISMATCH_ERROR"@,
            ErrorType::QuotesMismatch => "QUOTES_MISMATCH_ERROR"@,
            ErrorType::VoidElementClosingTag => "VOID_ELEMENT_CLOSING_TAG_ERROR"@,
            ErrorType::RubyParse => "RUBY_PARSE_ERROR"@,
        }
    }

    /// The class-style name used when rendering a tree, e.g. `UnclosedElementError`.
    pub open spec fn spec_display_name(self) -> Seq<char> {
        match self {
            ErrorType::ParseError => "ParseError"@,
            ErrorType::UnexpectedToken => "UnexpectedTokenError"@,
            ErrorType::UnclosedElement => "UnclosedElementError"@,
            ErrorType::MissingOpeningTag => "MissingOpeningTagError"@,
            ErrorType::MissingClosingTag => "MissingClosingTagError"@,
            ErrorType::TagNamesMismatch => "TagNamesMismatchError"@,
            ErrorType::QuotesMismatch => "QuotesMismatchError"@,
            ErrorType::VoidElementClosingTag => "VoidElementClosingTagError"@,
            ErrorType::RubyParse => "RubyParseError"@,
        }
    }

    pub fn label(&self) -> (s: String)
        ensures
            s@ == self.spec_label(),
    {
        match self {
            ErrorType::ParseError => "PARSE_ERROR".to_owned(),
            ErrorType::UnexpectedToken => "UNEXPECTED_TOKEN_ERROR".to_owned(),
            ErrorType::UnclosedElement => "UNCLOSED_ELEMENT_ERROR".to_owned(),
            ErrorType::MissingOpeningTag => "MISSING_OPENING_TAG_ERROR".to_owned(),
            ErrorType::MissingClosingTag => "MISSING_CLOSING_TAG_ERROR".to_owned(),
            ErrorType::TagNamesMismatch => "TAG_NAMES_MISMATCH_ERROR".to_owned(),
            ErrorType::QuotesMismatch => "QUOTES_MISMATCH_ERROR".to_owned(),
            ErrorType::VoidElementClosingTag => "VOID_ELEMENT_CLOSING_TAG_ERROR".to_owned(),
            ErrorType::RubyParse => "RUBY_PARSE_ERROR".to_owned(),
        }
    }

    pub fn display_name(&self) -> (s: String)
        ensures
            s@ == self.spec_display_name(),
    {
        match self {
            ErrorType::ParseError => "ParseError".to_owned(),
            ErrorType::UnexpectedToken => "UnexpectedTokenError".to_owned(),
            ErrorType::UnclosedElement => "UnclosedElementError".to_owned(),
            ErrorType::MissingOpeningTag => "MissingOpeningTagError".to_owned(),
            ErrorType::MissingClosingTag => "MissingClosingTagError".to_owned(),
            ErrorType::TagNamesMismatch => "TagNamesMismatchError".to_owned(),
            ErrorType::QuotesMismatch => "QuotesMismatchError".to_owned(),
            ErrorType::VoidElementClosingTag => "VoidElementClosingTagError".to_owned(),
            ErrorType::RubyParse => "RubyParseError".to_owned(),
        }
    }
}

/// One owned diagnostic: its kind, where it points in the source, and the
/// human-readable message the native parser rendered for it. Owned outright;
/// after marshalling it keeps no tie to native memory.
#[derive(Debug, PartialEq, Eq)]
pub struct AnyError {
    pub error_type: ErrorType,
    pub location: Location,
    pub message: String,
}

impl Clone for AnyError {
    fn clone(&self) -> (r: Self)
        ensures
            r == *self,
    {
        AnyError {
            error_type: self.error_type,
            location: self.location,
            message: self.message.clone(),
        }
    }
}

impl AnyError {
    pub fn new(error_type: ErrorType, location: Location, message: String) -> (e: AnyError)
        ensures
            e == (AnyError { error_type, location, message }),
    {
        AnyError { error_type, location, message }
    }

    /// The native discriminant label for this diagnostic's kind.
    pub fn error_type(&self) -> (s: String)
        ensures
            s@ == self.error_type.spec_label(),
    {
        self.error_type.label()
    }

    /// The rendered human-readable message.
    pub fn message(&self) -> (s: &String)
        ensures
            s@ == self.message@,
    {
        &self.message
    }

    /// What `inspect` renders: `Name (location: (l:c)-(l:c))`.
    pub open spec fn spec_inspect(self) -> Seq<char> {
        self.error_type.spec_display_name() + " (location: "@ + self.location.spec_inspect()
            + ")"@
    }

    pub fn inspect(&self) -> (s: String)
        ensures
            s@ == self.spec_inspect(),
    {
        let mut s = self.error_type.display_name();
        s.append(" (location: ");
        let loc = self.location.inspect();
        s.append(loc.as_str());
        s.append(")");
        proof {
            assert(s@ =~= self.spec_inspect());
        }
        s
    }
}

} // verus!
