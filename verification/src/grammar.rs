//! The grammar of an `env_id` invocation:
//!
//! ```text
//! invocation := name default? apply?
//! name       := string literal
//! default    := `?` `:` identifier
//! apply      := `=>` identifier
//! ```
//!
//! It is read from lexemes: which literal is a string literal and which word
//! an identifier is what each lexeme says of itself.

use crate::error::{Error, ErrorView, Expected, Found, FoundView};
use crate::lexeme::{lexeme_views, Lexeme, LexemeView};
use vstd::prelude::*;

verus! {

/// The identifier to use where the variable cannot be read.
#[derive(Debug, PartialEq, Eq)]
pub struct DefaultId {
    pub ident: String,
}

/// The macro to hand the identifier to.
#[derive(Debug, PartialEq, Eq)]
pub struct ApplyTo {
    pub ident: String,
}

/// A parsed invocation.
#[derive(Debug, PartialEq, Eq)]
pub struct EnvId {
    /// The name of the environment variable.
    pub name: String,
    pub default_id: Option<DefaultId>,
    pub apply_to: Option<ApplyTo>,
}

/// What an `EnvId` holds, as mathematical values.
pub struct EnvIdView {
    pub name: Seq<char>,
    pub default_id: Option<Seq<char>>,
    pub apply_to: Option<Seq<char>>,
}

impl View for DefaultId {
    type V = Seq<char>;

    open spec fn view(&self) -> Seq<char> {
        self.ident@
    }
}

impl View for ApplyTo {
    type V = Seq<char>;

    open spec fn view(&self) -> Seq<char> {
        self.ident@
    }
}

impl View for EnvId {
    type V = EnvIdView;

    open spec fn view(&self) -> EnvIdView {
        EnvIdView {
            name: self.name@,
            default_id: match self.default_id {
                Some(d) => Some(d@),
                None => None,
            },
            apply_to: match self.apply_to {
                Some(a) => Some(a@),
                None => None,
            },
        }
    }
}

/// Whether position `i` holds the punctuation character `ch`.
pub open spec fn punct_at(t: Seq<LexemeView>, i: int, ch: char) -> bool {
    0 <= i < t.len() && (t[i] matches LexemeView::Punct(c, _) && c == ch)
}

/// Whether positions `i` and `i + 1` hold `=>`: an `=` joined to the `>`
/// that follows it.
pub open spec fn fat_arrow_at(t: Seq<LexemeView>, i: int) -> bool {
    0 <= i < t.len() && t[i] == LexemeView::Punct('=', true) && punct_at(t, i + 1, '>')
}

/// The string that position `i` denotes, where it holds a string literal.
pub open spec fn name_at(t: Seq<LexemeView>, i: int) -> Option<Seq<char>> {
    if 0 <= i < t.len() {
        match t[i] {
            LexemeView::Literal { repr, value } => value,
            _ => None,
        }
    } else {
        None
    }
}

/// The identifier at position `i`, where it holds one that may name an item.
pub open spec fn ident_at(t: Seq<LexemeView>, i: int) -> Option<Seq<char>> {
    if 0 <= i < t.len() {
        match t[i] {
            LexemeView::Ident { text, accepted } => if accepted {
                Some(text)
            } else {
                None
            },
            _ => None,
        }
    } else {
        None
    }
}

/// What stands at position `i` where `expected` was asked for in vain.
pub open spec fn found_at(t: Seq<LexemeView>, i: int, expected: Expected) -> FoundView {
    if 0 <= i < t.len() {
        match t[i] {
            LexemeView::Ident { text, accepted } => if expected is Identifier {
                FoundView::Keyword(text)
            } else {
                FoundView::Token
            },
            _ => FoundView::Token,
        }
    } else {
        FoundView::End
    }
}

/// The refusal of position `i`, where `expected` was asked for.
pub open spec fn refusal(t: Seq<LexemeView>, i: int, expected: Expected) -> ErrorView {
    ErrorView::Syntax { at: i, expected, found: found_at(t, i, expected) }
}

/// An identifier from position `i`: the identifier and the position behind
/// it.
pub open spec fn parse_ident(t: Seq<LexemeView>, i: int) -> Result<(Seq<char>, int), ErrorView> {
    match ident_at(t, i) {
        Some(text) => Ok((text, i + 1)),
        None => Err(refusal(t, i, Expected::Identifier)),
    }
}

/// A default from position `i`: its identifier and the position behind it.
pub open spec fn parse_default_id(t: Seq<LexemeView>, i: int) -> Result<
    (Seq<char>, int),
    ErrorView,
> {
    if !punct_at(t, i, '?') {
        Err(refusal(t, i, Expected::Question))
    } else if !punct_at(t, i + 1, ':') {
        Err(refusal(t, i + 1, Expected::Colon))
    } else {
        parse_ident(t, i + 2)
    }
}

/// A macro to apply from position `i`: its name and the position behind it.
pub open spec fn parse_apply_to(t: Seq<LexemeView>, i: int) -> Result<(Seq<char>, int), ErrorView> {
    if !fat_arrow_at(t, i) {
        Err(refusal(t, i, Expected::FatArrow))
    } else {
        parse_ident(t, i + 2)
    }
}

/// The optional default from position `i`. It is taken, and must then be
/// complete, exactly where a `?` stands there.
pub open spec fn parse_optional_default(t: Seq<LexemeView>, i: int) -> Result<
    (Option<Seq<char>>, int),
    ErrorView,
> {
    if punct_at(t, i, '?') {
        match parse_default_id(t, i) {
            Ok((ident, next)) => Ok((Some(ident), next)),
            Err(e) => Err(e),
        }
    } else {
        Ok((None, i))
    }
}

/// The optional macro to apply from position `i`. It is taken, and must
/// then be complete, exactly where `=>` stands there.
pub open spec fn parse_optional_apply(t: Seq<LexemeView>, i: int) -> Result<
    (Option<Seq<char>>, int),
    ErrorView,
> {
    if fat_arrow_at(t, i) {
        match parse_apply_to(t, i) {
            Ok((ident, next)) => Ok((Some(ident), next)),
            Err(e) => Err(e),
        }
    } else {
        Ok((None, i))
    }
}

/// An invocation from position `i`: what it holds and the position behind
/// it.
pub open spec fn parse_invocation(t: Seq<LexemeView>, i: int) -> Result<(EnvIdView, int), ErrorView> {
    match name_at(t, i) {
        None => Err(refusal(t, i, Expected::StringLiteral)),
        Some(name) => match parse_optional_default(t, i + 1) {
            Err(e) => Err(e),
            Ok((default_id, after_default)) => match parse_optional_apply(t, after_default) {
                Err(e) => Err(e),
                Ok((apply_to, end)) => Ok((EnvIdView { name, default_id, apply_to }, end)),
            },
        },
    }
}

/// The invocation that the whole of `t` is: one invocation from the first
/// position, with nothing behind it.
pub open spec fn parse_all(t: Seq<LexemeView>) -> Result<EnvIdView, ErrorView> {
    match parse_invocation(t, 0) {
        Err(e) => Err(e),
        Ok((invocation, end)) => if end == t.len() {
            Ok(invocation)
        } else {
            Err(refusal(t, end, Expected::End))
        },
    }
}

/// Whether a complete default, `?` `:` and an identifier, stands at position
/// `i`.
pub open spec fn default_at(t: Seq<LexemeView>, i: int) -> bool {
    punct_at(t, i, '?') && punct_at(t, i + 1, ':') && ident_at(t, i + 2) is Some
}

/// Whether a complete macro to apply, `=>` and an identifier, stands at
/// position `i`.
pub open spec fn apply_at(t: Seq<LexemeView>, i: int) -> bool {
    fat_arrow_at(t, i) && ident_at(t, i + 2) is Some
}

/// The token sequences of the grammar, written out: a name, then nothing,
/// a default, a macro to apply, or a default and a macro to apply.
pub open spec fn well_formed(t: Seq<LexemeView>) -> bool {
    &&& name_at(t, 0) is Some
    &&& {
        ||| t.len() == 1
        ||| t.len() == 4 && default_at(t, 1)
        ||| t.len() == 4 && apply_at(t, 1)
        ||| t.len() == 7 && default_at(t, 1) && apply_at(t, 4)
    }
}

/// What a well-formed token sequence holds.
pub open spec fn contents(t: Seq<LexemeView>) -> EnvIdView {
    EnvIdView {
        name: name_at(t, 0).unwrap(),
        default_id: if punct_at(t, 1, '?') {
            ident_at(t, 3)
        } else {
            None
        },
        apply_to: if punct_at(t, 1, '?') {
            ident_at(t, 6)
        } else {
            ident_at(t, 3)
        },
    }
}

/// A token sequence is read as an invocation exactly when it is one of the
/// four forms of the grammar, and the invocation then holds the name, the
/// default and the macro that stand in it.
pub proof fn lemma_parse_all_accepts(t: Seq<LexemeView>)
    ensures
        parse_all(t) is Ok <==> well_formed(t),
        well_formed(t) ==> parse_all(t) == Ok::<EnvIdView, ErrorView>(contents(t)),
{
}

/// A refusal for syntax points into the input or just behind it, and what
/// it found is what stands there.
pub proof fn lemma_parse_all_refuses(t: Seq<LexemeView>)
    ensures
        parse_all(t) matches Err(e) ==> {
            &&& e matches ErrorView::Syntax { at, expected, found }
            &&& 0 <= at <= t.len()
            &&& found == found_at(t, at, expected)
            &&& expected is End ==> at < t.len()
        },
{
}

/// Builds the refusal of position `pos`, where `expected` was asked for.
fn refuse(tokens: &Vec<Lexeme>, pos: usize, expected: Expected) -> (error: Error)
    ensures
        error@ == refusal(lexeme_views(tokens@), pos as int, expected),
{
    let found = if pos < tokens.len() {
        match &tokens[pos] {
            Lexeme::Ident { text, accepted: _ } => match expected {
                Expected::Identifier => Found::Keyword(text.clone()),
                _ => Found::Token,
            },
            _ => Found::Token,
        }
    } else {
        Found::End
    };
    Error::Syntax { at: pos, expected, found }
}

/// Whether position `pos` holds the punctuation character `ch`.
fn is_punct(tokens: &Vec<Lexeme>, pos: usize, ch: char) -> (b: bool)
    ensures
        b == punct_at(lexeme_views(tokens@), pos as int, ch),
{
    if pos < tokens.len() {
        match &tokens[pos] {
            Lexeme::Punct(c, _) => *c == ch,
            _ => false,
        }
    } else {
        false
    }
}

/// Whether `=>` stands at position `pos`.
fn is_fat_arrow(tokens: &Vec<Lexeme>, pos: usize) -> (b: bool)
    ensures
        b == fat_arrow_at(lexeme_views(tokens@), pos as int),
{
    if pos < tokens.len() {
        match &tokens[pos] {
            Lexeme::Punct(c, joint) => *c == '=' && *joint && is_punct(tokens, pos + 1, '>'),
            _ => false,
        }
    } else {
        false
    }
}

/// Takes an identifier from position `pos`.
fn identifier(tokens: &Vec<Lexeme>, pos: usize) -> (r: Result<(String, usize), Error>)
    ensures
        match r {
            Ok((text, next)) => parse_ident(lexeme_views(tokens@), pos as int) == Ok::<
                (Seq<char>, int),
                ErrorView,
            >((text@, next as int)),
            Err(e) => parse_ident(lexeme_views(tokens@), pos as int) == Err::<
                (Seq<char>, int),
                ErrorView,
            >(e@),
        },
{
    if pos < tokens.len() {
        if let Lexeme::Ident { text, accepted } = &tokens[pos] {
            if *accepted {
                return Ok((text.clone(), pos + 1));
            }
        }
    }
    Err(refuse(tokens, pos, Expected::Identifier))
}

impl DefaultId {
    /// Takes a default, `?` `:` and an identifier, from position `pos` of
    /// `tokens`, and gives it with the position behind it.
    pub fn parse(tokens: &Vec<Lexeme>, pos: usize) -> (r: Result<(DefaultId, usize), Error>)
        ensures
            match r {
                Ok((default_id, next)) => parse_default_id(lexeme_views(tokens@), pos as int)
                    == Ok::<(Seq<char>, int), ErrorView>((default_id@, next as int)),
                Err(e) => parse_default_id(lexeme_views(tokens@), pos as int) == Err::<
                    (Seq<char>, int),
                    ErrorView,
                >(e@),
            },
    {
        if !is_punct(tokens, pos, '?') {
            return Err(refuse(tokens, pos, Expected::Question));
        }
        assert(pos < lexeme_views(tokens@).len() == tokens.len());
        if !is_punct(tokens, pos + 1, ':') {
            return Err(refuse(tokens, pos + 1, Expected::Colon));
        }
        assert(pos + 1 < lexeme_views(tokens@).len() == tokens.len());
        match identifier(tokens, pos + 2) {
            Ok((ident, next)) => Ok((DefaultId { ident }, next)),
            Err(e) => Err(e),
        }
    }
}

impl ApplyTo {
    /// Takes a macro to apply, `=>` and an identifier, from position `pos`
    /// of `tokens`, and gives it with the position behind it.
    pub fn parse(tokens: &Vec<Lexeme>, pos: usize) -> (r: Result<(ApplyTo, usize), Error>)
        ensures
            match r {
                Ok((apply_to, next)) => parse_apply_to(lexeme_views(tokens@), pos as int) == Ok::<
                    (Seq<char>, int),
                    ErrorView,
                >((apply_to@, next as int)),
                Err(e) => parse_apply_to(lexeme_views(tokens@), pos as int) == Err::<
                    (Seq<char>, int),
                    ErrorView,
                >(e@),
            },
    {
        if !is_fat_arrow(tokens, pos) {
            return Err(refuse(tokens, pos, Expected::FatArrow));
        }
        assert(pos + 1 < lexeme_views(tokens@).len() == tokens.len());
        match identifier(tokens, pos + 2) {
            Ok((ident, next)) => Ok((ApplyTo { ident }, next)),
            Err(e) => Err(e),
        }
    }
}

impl EnvId {
    /// Takes an invocation from position `pos` of `tokens`: the name, then
    /// a default where `?` follows, then a macro to apply where `=>`
    /// follows. Gives it with the position behind it; what stands there is
    /// not looked at.
    pub fn parse(tokens: &Vec<Lexeme>, pos: usize) -> (r: Result<(EnvId, usize), Error>)
        ensures
            match r {
                Ok((env_id, next)) => parse_invocation(lexeme_views(tokens@), pos as int) == Ok::<
                    (EnvIdView, int),
                    ErrorView,
                >((env_id@, next as int)),
                Err(e) => parse_invocation(lexeme_views(tokens@), pos as int) == Err::<
                    (EnvIdView, int),
                    ErrorView,
                >(e@),
            },
    {
        let name = if pos < tokens.len() {
            match &tokens[pos] {
                Lexeme::Literal { repr: _, value } => value.clone(),
                _ => None,
            }
        } else {
            None
        };
        let name = match name {
            Some(name) => name,
            None => {
                return Err(refuse(tokens, pos, Expected::StringLiteral));
            },
        };
        let mut next = pos + 1;
        let default_id = if is_punct(tokens, next, '?') {
            match DefaultId::parse(tokens, next) {
                Ok((default_id, after)) => {
                    next = after;
                    Some(default_id)
                },
                Err(e) => {
                    return Err(e);
                },
            }
        } else {
            None
        };
        let apply_to = if is_fat_arrow(tokens, next) {
            match ApplyTo::parse(tokens, next) {
                Ok((apply_to, after)) => {
                    next = after;
                    Some(apply_to)
                },
                Err(e) => {
                    return Err(e);
                },
            }
        } else {
            None
        };
        Ok((EnvId { name, default_id, apply_to }, next))
    }

    /// Reads the whole of `tokens` as one invocation.
    pub fn parse_all(tokens: &Vec<Lexeme>) -> (r: Result<EnvId, Error>)
        ensures
            match r {
                Ok(env_id) => parse_all(lexeme_views(tokens@)) == Ok::<EnvIdView, ErrorView>(
                    env_id@,
                ),
                Err(e) => parse_all(lexeme_views(tokens@)) == Err::<EnvIdView, ErrorView>(e@),
            },
    {
        match EnvId::parse(tokens, 0) {
            Ok((env_id, end)) => {
                if end == tokens.len() {
                    Ok(env_id)
                } else {
                    Err(refuse(tokens, end, Expected::End))
                }
            },
            Err(e) => Err(e),
        }
    }
}

} // verus!
