use vstd::prelude::*;

verus! {

/// Ghost mirror of [`ParseError`], with string payloads as character sequences.
#[verifier::ext_equal]
pub enum ParseErrorV {
    /// The text is not a well-formed document of the wire grammar.
    Syntax,
    /// A field the schema requires is absent; carries the field name.
    MissingField(Seq<char>),
    /// An object carries a key the schema does not know; carries the key.
    UnknownField(Seq<char>),
    /// A fixed-vocabulary token (side, end, background style, node type) was
    /// not recognised; carries the offending token.
    UnknownEnumValue(Seq<char>),
    /// A `#`-prefixed color string is not a well-formed hex color.
    InvalidHex(Seq<char>),
    /// A link node's `url` does not parse as a valid URL.
    MalformedUrl(Seq<char>),
    /// An identifier on the wire is the empty string.
    EmptyIdentifier,
    /// A numeric field does not fit its integer type; carries the field name.
    NumberOutOfRange(Seq<char>),
    /// A field holds a value of the wrong shape; carries the field name.
    WrongType(Seq<char>),
    /// Two nodes in one document share an identifier.
    DuplicateNodeId(Seq<char>),
    /// Two edges in one document share an identifier.
    DuplicateEdgeId(Seq<char>),
}

/// An error raised while decoding a document, a node, an edge or a color.
///
/// Every decode failure is reported through one of these variants; decoding
/// never panics and never silently drops input.
#[derive(Debug)]
pub enum ParseError {
    Syntax,
    MissingField(String),
    UnknownField(String),
    UnknownEnumValue(String),
    InvalidHex(String),
    MalformedUrl(String),
    EmptyIdentifier,
    NumberOutOfRange(String),
    WrongType(String),
    DuplicateNodeId(String),
    DuplicateEdgeId(String),
}

impl View for ParseError {
    type V = ParseErrorV;

    open spec fn view(&self) -> ParseErrorV {
        match self {
            ParseError::Syntax => ParseErrorV::Syntax,
            ParseError::MissingField(s) => ParseErrorV::MissingField(s@),
            ParseError::UnknownField(s) => ParseErrorV::UnknownField(s@),
            ParseError::UnknownEnumValue(s) => ParseErrorV::UnknownEnumValue(s@),
            ParseError::InvalidHex(s) => ParseErrorV::InvalidHex(s@),
            ParseError::MalformedUrl(s) => ParseErrorV::MalformedUrl(s@),
            ParseError::EmptyIdentifier => ParseErrorV::EmptyIdentifier,
            ParseError::NumberOutOfRange(s) => ParseErrorV::NumberOutOfRange(s@),
            ParseError::WrongType(s) => ParseErrorV::WrongType(s@),
            ParseError::DuplicateNodeId(s) => ParseErrorV::DuplicateNodeId(s@),
            ParseError::DuplicateEdgeId(s) => ParseErrorV::DuplicateEdgeId(s@),
        }
    }
}

} // verus!
