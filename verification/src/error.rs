use vstd::prelude::*;

verus! {

/// A syntactic violation, detected eagerly at the point where the grammar
/// was broken. Parsing is fail-fast: the first violation aborts the whole
/// parse and is reported to the caller; no partial tree is returned.
#[derive(Debug, PartialEq, Eq)]
pub enum ParseError {
    /// A token was observed where the grammar required a different fixed
    /// token, or a keyword dispatch matched none of the expected
    /// alternatives; carries the offending token's literal text.
    UnexpectedToken(String),
    /// A symbol token was required as a declared name or a literal value
    /// but a different token was found.
    MissingName,
    /// A symbol token was required as a type annotation but a different
    /// token was found.
    MissingType,
    /// A required delimiter was absent; carries the expected character.
    MissingDelimiter(char),
    /// A token opening an instruction was required inside a block body but
    /// a different token was found.
    ExpectedInstruction,
    /// The token sequence ended while a construct was still open.
    IncompleteInput,
}

/// The mathematical value of a parse error.
pub enum PErr {
    UnexpectedToken(Seq<char>),
    MissingName,
    MissingType,
    MissingDelimiter(char),
    ExpectedInstruction,
    IncompleteInput,
}

impl View for ParseError {
    type V = PErr;

    open spec fn view(&self) -> PErr {
        match self {
            ParseError::UnexpectedToken(text) => PErr::UnexpectedToken(text@),
            ParseError::MissingName => PErr::MissingName,
            ParseError::MissingType => PErr::MissingType,
            ParseError::MissingDelimiter(c) => PErr::MissingDelimiter(*c),
            ParseError::ExpectedInstruction => PErr::ExpectedInstruction,
            ParseError::IncompleteInput => PErr::IncompleteInput,
        }
    }
}

} // verus!
