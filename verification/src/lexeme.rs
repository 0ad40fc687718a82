//! Tokens together with what the lexical rules say of them: the form in
//! which the grammar reads its input.

use crate::lexical::{is_identifier, lit_str_value};
use crate::token::{token_views, Delimiter, Token, TokenView};
use vstd::prelude::*;

verus! {

/// One position of the flat token sequence, with the answers to the two
/// lexical questions that the grammar asks of it.
#[derive(Debug, PartialEq, Eq)]
pub enum Lexeme {
    /// A visibly delimited group, taken as a whole.
    Group(Delimiter),
    /// An identifier or a reserved word as written, and whether it is an
    /// identifier that may name an item.
    Ident { text: String, accepted: bool },
    /// A punctuation character, and whether it is joined to the next.
    Punct(char, bool),
    /// A literal as written, and the string that it denotes where it is a
    /// string literal.
    Literal { repr: String, value: Option<String> },
}

/// What a `Lexeme` holds, as mathematical values.
pub enum LexemeView {
    Group(Delimiter),
    Ident { text: Seq<char>, accepted: bool },
    Punct(char, bool),
    Literal { repr: Seq<char>, value: Option<Seq<char>> },
}

impl View for Lexeme {
    type V = LexemeView;

    open spec fn view(&self) -> LexemeView {
        match *self {
            Lexeme::Group(d) => LexemeView::Group(d),
            Lexeme::Ident { text, accepted } => LexemeView::Ident { text: text@, accepted },
            Lexeme::Punct(c, j) => LexemeView::Punct(c, j),
            Lexeme::Literal { repr, value } => LexemeView::Literal {
                repr: repr@,
                value: match value {
                    Some(v) => Some(v@),
                    None => None,
                },
            },
        }
    }
}

/// The views of a sequence of lexemes.
pub open spec fn lexeme_views(lexemes: Seq<Lexeme>) -> Seq<LexemeView> {
    lexemes.map_values(|l: Lexeme| l@)
}

/// The token that a lexeme is, the answers left aside.
pub open spec fn token_of(lexeme: LexemeView) -> TokenView {
    match lexeme {
        LexemeView::Group(d) => TokenView::Group(d),
        LexemeView::Ident { text, accepted } => TokenView::Ident(text),
        LexemeView::Punct(c, j) => TokenView::Punct(c, j),
        LexemeView::Literal { repr, value } => TokenView::Literal(repr),
    }
}

/// Whether `lexemes` are the tokens `tokens`, position by position, each
/// with some answers.
pub open spec fn classifies(tokens: Seq<TokenView>, lexemes: Seq<LexemeView>) -> bool {
    &&& lexemes.len() == tokens.len()
    &&& forall|i: int| 0 <= i < tokens.len() ==> token_of(#[trigger] lexemes[i]) == tokens[i]
}

/// Puts the two lexical questions to each token: of a literal, which string
/// it denotes; of an identifier, whether it may name an item.
///
/// The tokens come back in their order and as they were. Of the answers
/// nothing is promised.
pub fn classify(tokens: &Vec<Token>) -> (lexemes: Vec<Lexeme>)
    ensures
        classifies(token_views(tokens@), lexeme_views(lexemes@)),
{
    let mut lexemes: Vec<Lexeme> = Vec::new();
    let mut i: usize = 0;
    while i < tokens.len()
        invariant
            i <= tokens.len(),
            lexemes.len() == i,
            forall|k: int| 0 <= k < i ==> token_of(#[trigger] lexemes@[k]@) == tokens@[k]@,
        decreases tokens.len() - i,
    {
        let lexeme = match &tokens[i] {
            Token::Group(delimiter) => Lexeme::Group(*delimiter),
            Token::Ident(text) => Lexeme::Ident {
                text: text.clone(),
                accepted: is_identifier(text.as_str()),
            },
            Token::Punct(ch, joint) => Lexeme::Punct(*ch, *joint),
            Token::Literal(repr) => Lexeme::Literal {
                repr: repr.clone(),
                value: lit_str_value(repr.as_str()),
            },
        };
        lexemes.push(lexeme);
        i += 1;
    }
    lexemes
}

} // verus!
