//! Why an `env_id` invocation is refused, and the diagnostic of each refusal.

use vstd::prelude::*;
use vstd::string::*;

verus! {

/// What the grammar asks for at a position.
#[derive(Clone, Copy, Debug, PartialEq, Eq, Structural)]
pub enum Expected {
    /// The string literal that names the variable.
    StringLiteral,
    /// The `?` that opens a default.
    Question,
    /// The `:` that follows `?`.
    Colon,
    /// The `=>` that opens the macro to apply.
    FatArrow,
    /// An identifier.
    Identifier,
    /// Nothing more.
    End,
}

/// What stands at the position instead.
#[derive(Debug, PartialEq, Eq)]
pub enum Found {
    /// The input ends there.
    End,
    /// A reserved word, where an identifier was asked for.
    Keyword(String),
    /// Some other token.
    Token,
}

/// What a `Found` holds, as mathematical values.
pub enum FoundView {
    End,
    Keyword(Seq<char>),
    Token,
}

impl View for Found {
    type V = FoundView;

    open spec fn view(&self) -> FoundView {
        match *self {
            Found::End => FoundView::End,
            Found::Keyword(word) => FoundView::Keyword(word@),
            Found::Token => FoundView::Token,
        }
    }
}

/// A refusal.
#[derive(Debug, PartialEq, Eq)]
pub enum Error {
    /// The tokens do not follow the grammar: at position `at` of the flat
    /// token sequence `expected` was asked for and `found` stands.
    Syntax { at: usize, expected: Expected, found: Found },
    /// The variable could not be read and the invocation gives no default.
    /// The text is the reason that the lookup gave.
    Lookup(String),
    /// The variable is set, but its value, the text, is no identifier.
    Value(String),
}

/// What an `Error` holds, as mathematical values.
pub enum ErrorView {
    Syntax { at: int, expected: Expected, found: FoundView },
    Lookup(Seq<char>),
    Value(Seq<char>),
}

impl View for Error {
    type V = ErrorView;

    open spec fn view(&self) -> ErrorView {
        match *self {
            Error::Syntax { at, expected, found } => ErrorView::Syntax {
                at: at as int,
                expected,
                found: found@,
            },
            Error::Lookup(reason) => ErrorView::Lookup(reason@),
            Error::Value(value) => ErrorView::Value(value@),
        }
    }
}

/// The words for what was expected.
pub open spec fn expectation(expected: Expected) -> Seq<char> {
    match expected {
        Expected::StringLiteral => "expected string literal"@,
        Expected::Question => "expected `?`"@,
        Expected::Colon => "expected `:`"@,
        Expected::FatArrow => "expected `=>`"@,
        Expected::Identifier => "expected identifier"@,
        Expected::End => "unexpected token"@,
    }
}

/// Whether a missing token of this kind is reported as the end of the input.
/// Punctuation is not: its diagnostic is the same at the end as elsewhere.
pub open spec fn reports_end(expected: Expected) -> bool {
    expected is StringLiteral || expected is Identifier
}

/// The diagnostic of a refusal.
pub open spec fn error_message(error: ErrorView) -> Seq<char> {
    match error {
        ErrorView::Syntax { at, expected, found } => match found {
            FoundView::End => if reports_end(expected) {
                "unexpected end of input, "@ + expectation(expected)
            } else {
                expectation(expected)
            },
            FoundView::Keyword(word) => if expected is Identifier {
                expectation(expected) + ", found keyword `"@ + word + "`"@
            } else {
                expectation(expected)
            },
            FoundView::Token => expectation(expected),
        },
        ErrorView::Lookup(reason) => "failed to get environment variable: "@ + reason,
        ErrorView::Value(value) => "`"@ + value + "` is not a valid identifier"@,
    }
}

impl Expected {
    /// The words for what was expected.
    pub fn words(self) -> (text: &'static str)
        ensures
            text@ == expectation(self),
    {
        match self {
            Expected::StringLiteral => "expected string literal",
            Expected::Question => "expected `?`",
            Expected::Colon => "expected `:`",
            Expected::FatArrow => "expected `=>`",
            Expected::Identifier => "expected identifier",
            Expected::End => "unexpected token",
        }
    }

    /// Whether a missing token of this kind is reported as the end of the
    /// input.
    pub fn reports_end(self) -> (b: bool)
        ensures
            b == reports_end(self),
    {
        match self {
            Expected::StringLiteral => true,
            Expected::Identifier => true,
            _ => false,
        }
    }
}

impl Error {
    /// The diagnostic of this refusal.
    pub fn message(&self) -> (text: String)
        ensures
            text@ == error_message(self@),
    {
        match self {
            Error::Syntax { at: _, expected, found } => {
                let words = expected.words();
                match found {
                    Found::End => {
                        if expected.reports_end() {
                            let mut text = "unexpected end of input, ".to_owned();
                            text.append(words);
                            text
                        } else {
                            words.to_owned()
                        }
                    },
                    Found::Keyword(word) => {
                        let mut text = words.to_owned();
                        match expected {
                            Expected::Identifier => {
                                text.append(", found keyword `");
                                text.append(word.as_str());
                                text.append("`");
                            },
                            _ => {},
                        }
                        text
                    },
                    Found::Token => words.to_owned(),
                }
            },
            Error::Lookup(reason) => {
                let mut text = "failed to get environment variable: ".to_owned();
                text.append(reason.as_str());
                text
            },
            Error::Value(value) => {
                let mut text = "`".to_owned();
                text.append(value.as_str());
                text.append("` is not a valid identifier");
                text
            },
        }
    }
}

} // verus!
