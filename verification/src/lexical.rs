//! What the Rust lexical rules say of a single token's text. Each question
//! is put to `syn`, which has the text tokenized by whatever tokenizer the
//! running process offers. Nothing is claimed of the answers: the functions
//! that use them are proved for every answer.

use vstd::prelude::*;

verus! {

/// Calls `syn::parse_str::<syn::LitStr>` on `repr` and, where that gives a
/// string literal, `syn::LitStr::value` on it: the string that the literal
/// denotes, or `None` where `syn` does not read `repr` as one string
/// literal. No contract: the answer is taken as it comes.
#[verifier::external_body]
pub(crate) fn lit_str_value(repr: &str) -> (value: Option<String>) {
    match syn::parse_str::<syn::LitStr>(repr) {
        Ok(lit) => Some(lit.value()),
        Err(_) => None,
    }
}

/// Calls `syn::parse_str::<syn::Ident>` on `text` and reports whether it
/// succeeded, which it does for one identifier that is no reserved word. No
/// contract: the answer is taken as it comes.
#[verifier::external_body]
pub(crate) fn is_identifier(text: &str) -> (accepted: bool) {
    syn::parse_str::<syn::Ident>(text).is_ok()
}

/// Calls `syn::ext::IdentExt::parse_any` on `text`, through
/// `syn::parse::Parser::parse_str`, and gives the identifier or reserved
/// word that `syn` read, as it prints; `None` where it read no single one.
/// No contract: the answer is taken as it comes.
#[verifier::external_body]
pub(crate) fn identifier_spelling(text: &str) -> (spelling: Option<String>) {
    let parsed = syn::parse::Parser::parse_str(
        <syn::Ident as syn::ext::IdentExt>::parse_any,
        text,
    );
    match parsed {
        Ok(ident) => Some(ident.to_string()),
        Err(_) => None,
    }
}

} // verus!
