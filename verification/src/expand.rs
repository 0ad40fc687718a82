//! From a parsed invocation and the outcome of reading the variable to the
//! tokens that the invocation expands to.

use crate::error::{Error, ErrorView};
use crate::grammar::{parse_all, EnvId, EnvIdView};
use crate::lexeme::{classifies, classify, lexeme_views, Lexeme, LexemeView};
use crate::lexical::identifier_spelling;
use crate::token::{flat, flatten, forest, lemma_forest, Delimiter, TokenTree, TreeView};
use vstd::prelude::*;
use vstd::string::*;

verus! {

/// Where the identifier of an expansion comes from.
#[derive(Clone, Copy, Debug, PartialEq, Eq, Structural)]
pub enum Origin {
    /// It is the value of the variable.
    Environment,
    /// It is the default that the invocation gives.
    Default,
}

/// What an invocation expands to: the identifier, alone or handed to a
/// macro.
#[derive(Debug, PartialEq, Eq)]
pub struct Expansion {
    pub ident: String,
    pub origin: Origin,
    /// The macro that the identifier is handed to, if any.
    pub apply_to: Option<String>,
}

/// What an `Expansion` holds, as mathematical values.
pub struct ExpansionView {
    pub ident: Seq<char>,
    pub origin: Origin,
    pub apply_to: Option<Seq<char>>,
}

impl View for Expansion {
    type V = ExpansionView;

    open spec fn view(&self) -> ExpansionView {
        ExpansionView {
            ident: self.ident@,
            origin: self.origin,
            apply_to: match self.apply_to {
                Some(m) => Some(m@),
                None => None,
            },
        }
    }
}

/// The outcome of reading a variable, as mathematical values: its value, or
/// the reason why there is none.
pub open spec fn lookup_view(value: Result<String, String>) -> Result<Seq<char>, Seq<char>> {
    match value {
        Ok(v) => Ok(v@),
        Err(reason) => Err(reason@),
    }
}

/// The view of an optional owned text.
pub open spec fn owned_view(text: Option<String>) -> Option<Seq<char>> {
    match text {
        Some(t) => Some(t@),
        None => None,
    }
}

/// Whether a character of the ASCII range is a letter, a digit or `_`.
pub open spec fn identifier_letter(c: char) -> bool {
    let n = c as u32;
    ||| 0x61 <= n <= 0x7a
    ||| 0x41 <= n <= 0x5a
    ||| 0x30 <= n <= 0x39
    ||| n == 0x5f
}

/// What holds of every identifier, whatever the lexer: it is not empty, it
/// does not begin with a digit, and its characters of the ASCII range are
/// letters, digits and `_`. Blanks, `#` and the other ASCII punctuation are
/// so left out. Of characters outside that range this says nothing.
pub open spec fn identifier_shaped(text: Seq<char>) -> bool {
    &&& text.len() > 0
    &&& !(0x30 <= text[0] as u32 <= 0x39)
    &&& forall|i: int| 0 <= i < text.len() && (#[trigger] text[i]) as u32 <= 0x7f
        ==> identifier_letter(text[i])
}

/// Whether `value` can be used as an identifier as it stands. `spelling` is
/// the lexer's word on it: the one identifier or reserved word that it read
/// in `value`, if it read one. The value must have the shape of an
/// identifier and the lexer must have read all of it as one.
pub open spec fn names_identifier(value: Seq<char>, spelling: Option<Seq<char>>) -> bool {
    identifier_shaped(value) && spelling == Some(value)
}

/// The expansion of `env_id` where reading the variable gave `value` and the
/// lexer read `spelling` in it. A value that is an identifier wins; one
/// that is none is refused. The default stands in where there is no value,
/// and without either the invocation is refused with the reason.
pub open spec fn resolve(
    env_id: EnvIdView,
    value: Result<Seq<char>, Seq<char>>,
    spelling: Option<Seq<char>>,
) -> Result<ExpansionView, ErrorView> {
    match value {
        Ok(v) => if names_identifier(v, spelling) {
            Ok(ExpansionView { ident: v, origin: Origin::Environment, apply_to: env_id.apply_to })
        } else {
            Err(ErrorView::Value(v))
        },
        Err(reason) => match env_id.default_id {
            Some(d) => Ok(
                ExpansionView { ident: d, origin: Origin::Default, apply_to: env_id.apply_to },
            ),
            None => Err(ErrorView::Lookup(reason)),
        },
    }
}

/// The tokens of an expansion: the identifier alone, or `m ! ( ident ) ;`
/// where it is handed to the macro `m`.
pub open spec fn expansion_trees(e: ExpansionView) -> Seq<TreeView> {
    match e.apply_to {
        None => seq![TreeView::Ident(e.ident)],
        Some(m) => seq![
            TreeView::Ident(m),
            TreeView::Punct('!', false),
            TreeView::Group(Delimiter::Parenthesis, seq![TreeView::Ident(e.ident)]),
            TreeView::Punct(';', false),
        ],
    }
}

/// The tokens that `env_id` expands to where reading the variable gave
/// `value` and the lexer read `spelling` in it, or the refusal.
pub open spec fn expand(
    env_id: EnvIdView,
    value: Result<Seq<char>, Seq<char>>,
    spelling: Option<Seq<char>>,
) -> Result<Seq<TreeView>, ErrorView> {
    match resolve(env_id, value, spelling) {
        Ok(e) => Ok(expansion_trees(e)),
        Err(e) => Err(e),
    }
}

/// The outcome of an expansion, as mathematical values.
pub open spec fn outcome_view(r: Result<Vec<TokenTree>, Error>) -> Result<Seq<TreeView>, ErrorView> {
    match r {
        Ok(trees) => Ok(forest(trees@)),
        Err(e) => Err(e@),
    }
}

/// After parsing, an invocation is refused in two cases only: the variable
/// has a value that is no identifier, or it has none and the invocation
/// gives no default. A value that is an identifier wins over the default.
/// A value that has not the shape of an identifier never comes out as one,
/// whatever the lexer says of it, nor does the default stand in for it.
pub proof fn lemma_resolve(
    env_id: EnvIdView,
    value: Result<Seq<char>, Seq<char>>,
    spelling: Option<Seq<char>>,
)
    ensures
        resolve(env_id, value, spelling) is Err <==> {
            ||| value is Ok && !names_identifier(value->Ok_0, spelling)
            ||| value is Err && env_id.default_id is None
        },
        value is Ok && names_identifier(value->Ok_0, spelling) ==> resolve(env_id, value, spelling)
            == Ok::<ExpansionView, ErrorView>(
            ExpansionView {
                ident: value->Ok_0,
                origin: Origin::Environment,
                apply_to: env_id.apply_to,
            },
        ),
        value is Ok && !identifier_shaped(value->Ok_0) ==> resolve(env_id, value, spelling)
            == Err::<ExpansionView, ErrorView>(ErrorView::Value(value->Ok_0)),
        resolve(env_id, value, spelling) matches Ok(e) ==> {
            &&& e.apply_to == env_id.apply_to
            &&& e.origin is Environment ==> value == Ok::<Seq<char>, Seq<char>>(e.ident)
                && names_identifier(e.ident, spelling)
            &&& e.origin is Default ==> value is Err && env_id.default_id == Some(e.ident)
        },
{
}

/// Whether `text` has the shape of an identifier.
pub fn is_identifier_shaped(text: &str) -> (b: bool)
    ensures
        b == identifier_shaped(text@),
{
    let len = text.unicode_len();
    if len == 0 {
        return false;
    }
    let first = text.get_char(0) as u32;
    if 0x30 <= first && first <= 0x39 {
        return false;
    }
    let mut i: usize = 0;
    while i < len
        invariant
            i <= len == text@.len(),
            forall|k: int| 0 <= k < i && (#[trigger] text@[k]) as u32 <= 0x7f ==> identifier_letter(
                text@[k],
            ),
        decreases len - i,
    {
        let n = text.get_char(i) as u32;
        if n <= 0x7f {
            let letter = (0x61 <= n && n <= 0x7a) || (0x41 <= n && n <= 0x5a) || (0x30 <= n && n
                <= 0x39) || n == 0x5f;
            if !letter {
                return false;
            }
        }
        i += 1;
    }
    true
}

/// Whether `value` can be used as an identifier as it stands, given the
/// lexer's word on it.
pub fn is_named_identifier(value: &String, spelling: &Option<String>) -> (b: bool)
    ensures
        b == names_identifier(value@, owned_view(*spelling)),
{
    match spelling {
        Some(s) => is_identifier_shaped(value.as_str()) && *s == *value,
        None => false,
    }
}

impl EnvId {
    /// Decides what this invocation expands to. `value` is the outcome of
    /// reading the variable that it names: `Ok` with the value, or `Err`
    /// with the reason why there is none. `spelling` is the lexer's word on
    /// the value: the one identifier or reserved word that it read in it,
    /// `None` where it read no single one or there is no value.
    pub fn resolve(self, value: Result<String, String>, spelling: Option<String>) -> (r: Result<
        Expansion,
        Error,
    >)
        ensures
            match r {
                Ok(e) => resolve(self@, lookup_view(value), owned_view(spelling)) == Ok::<
                    ExpansionView,
                    ErrorView,
                >(e@),
                Err(e) => resolve(self@, lookup_view(value), owned_view(spelling)) == Err::<
                    ExpansionView,
                    ErrorView,
                >(e@),
            },
    {
        let apply_to = match self.apply_to {
            Some(a) => Some(a.ident),
            None => None,
        };
        match value {
            Ok(ident) => {
                if is_named_identifier(&ident, &spelling) {
                    Ok(Expansion { ident, origin: Origin::Environment, apply_to })
                } else {
                    Err(Error::Value(ident))
                }
            },
            Err(reason) => match self.default_id {
                Some(d) => Ok(Expansion { ident: d.ident, origin: Origin::Default, apply_to }),
                None => Err(Error::Lookup(reason)),
            },
        }
    }
}

impl Expansion {
    /// The tokens of this expansion.
    pub fn into_tokens(self) -> (trees: Vec<TokenTree>)
        ensures
            forest(trees@) == expansion_trees(self@),
    {
        let mut trees: Vec<TokenTree> = Vec::new();
        match self.apply_to {
            None => {
                trees.push(TokenTree::Ident(self.ident));
            },
            Some(m) => {
                let mut inner: Vec<TokenTree> = Vec::new();
                inner.push(TokenTree::Ident(self.ident));
                proof {
                    lemma_forest(inner@);
                    assert(forest(inner@) =~= seq![TreeView::Ident(self.ident@)]);
                }
                trees.push(TokenTree::Ident(m));
                trees.push(TokenTree::Punct('!', false));
                trees.push(TokenTree::Group(Delimiter::Parenthesis, inner));
                trees.push(TokenTree::Punct(';', false));
            },
        }
        proof {
            lemma_forest(trees@);
            assert(forest(trees@) =~= expansion_trees(self@));
        }
        trees
    }
}

/// A variable whose value has not the shape of an identifier expands to
/// nothing: the invocation is refused for that value, whatever the lexer
/// says of it and whether or not the invocation gives a default.
pub proof fn lemma_unshaped_value_is_refused(
    env_id: EnvIdView,
    value: Seq<char>,
    spelling: Option<Seq<char>>,
)
    requires
        !identifier_shaped(value),
    ensures
        expand(env_id, Ok(value), spelling) == Err::<Seq<TreeView>, ErrorView>(
            ErrorView::Value(value),
        ),
{
}

/// Whether `r` is what `env_id` expands to for some answer of `lookup` to
/// the name that it holds, and some word of the lexer on that answer.
pub open spec fn expands_by<F: Fn(&str) -> Result<String, String>>(
    lookup: F,
    env_id: EnvIdView,
    r: Result<Vec<TokenTree>, Error>,
) -> bool {
    exists|name: &str, value: Result<String, String>, spelling: Option<Seq<char>>|
        #![trigger call_ensures(lookup, (name,), value), expand(env_id, lookup_view(value), spelling)]
        {
            &&& name@ == env_id.name
            &&& call_ensures(lookup, (name,), value)
            &&& outcome_view(r) == expand(env_id, lookup_view(value), spelling)
        }
}

/// Whether `r` is the outcome of reading `lexemes` as an invocation and
/// expanding it by `lookup`.
pub open spec fn expansion_of<F: Fn(&str) -> Result<String, String>>(
    lookup: F,
    lexemes: Seq<LexemeView>,
    r: Result<Vec<TokenTree>, Error>,
) -> bool {
    match parse_all(lexemes) {
        Err(e) => outcome_view(r) == Err::<Seq<TreeView>, ErrorView>(e),
        Ok(env_id) => expands_by(lookup, env_id, r),
    }
}

/// Expands the invocation that `trees` hold. `lookup` reads a variable of
/// the environment by its name: it gives the value, or the reason why there
/// is none.
///
/// The trees are made flat and each token is put to the lexer; the outcome
/// is stated for whatever the lexer answers. Tokens that do not follow the
/// grammar are refused and nothing is read. Otherwise `lookup` is asked
/// once, for the name that the invocation holds, the lexer is asked what it
/// reads in a value, and the outcome is what `expand` says for the two
/// answers.
pub fn parse_env_id<F>(trees: &Vec<TokenTree>, lookup: F) -> (r: Result<Vec<TokenTree>, Error>)
    where F: Fn(&str) -> Result<String, String>
    requires
        forall|name: &str| call_requires(lookup, (name,)),
    ensures
        exists|lexemes: Seq<LexemeView>| #[trigger]
            classifies(flat(forest(trees@)), lexemes) && expansion_of(lookup, lexemes, r),
{
    let tokens = flatten(trees);
    let lexemes = classify(&tokens);
    let r = expand_lexemes(&lexemes, lookup);
    assert(classifies(flat(forest(trees@)), lexeme_views(lexemes@)));
    r
}

/// Reads `lexemes` as an invocation and expands it by `lookup`.
///
/// Lexemes that do not follow the grammar are refused and nothing is read.
/// Otherwise `lookup` is asked once, for the name that the invocation
/// holds, the lexer is asked what it reads in a value, and the outcome is
/// what `expand` says for the two answers.
pub fn expand_lexemes<F>(lexemes: &Vec<Lexeme>, lookup: F) -> (r: Result<
    Vec<TokenTree>,
    Error,
>)
    where F: Fn(&str) -> Result<String, String>
    requires
        forall|name: &str| call_requires(lookup, (name,)),
    ensures
        expansion_of(lookup, lexeme_views(lexemes@), r),
{
    let env_id = match EnvId::parse_all(lexemes) {
        Ok(env_id) => env_id,
        Err(e) => {
            return Err(e);
        },
    };
    let ghost parsed = env_id@;
    let value = lookup(env_id.name.as_str());
    let spelling = match &value {
        Ok(v) => identifier_spelling(v.as_str()),
        Err(_) => None,
    };
    let r = match env_id.resolve(value, spelling) {
        Ok(expansion) => Ok(expansion.into_tokens()),
        Err(e) => Err(e),
    };
    assert(outcome_view(r) == expand(parsed, lookup_view(value), owned_view(spelling)));
    r
}

} // verus!
