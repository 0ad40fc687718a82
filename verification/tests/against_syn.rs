use build_assert::grammar::EnvId;
use build_assert::lexeme::classify;
use build_assert::token::{flatten, Delimiter, TokenTree};
use proc_macro2::{Group, Spacing, TokenStream};
use syn::parse::{ParseStream, Parser};

/// The invocation as `syn`'s own combinators read it.
fn by_syn(input: ParseStream) -> syn::Result<(String, Option<String>, Option<String>)> {
    let name: syn::LitStr = input.parse()?;
    let default_id = if input.peek(syn::token::Question) {
        input.parse::<syn::token::Question>()?;
        input.parse::<syn::token::Colon>()?;
        Some(input.parse::<syn::Ident>()?.to_string())
    } else {
        None
    };
    let apply_to = if input.peek(syn::token::FatArrow) {
        input.parse::<syn::token::FatArrow>()?;
        Some(input.parse::<syn::Ident>()?.to_string())
    } else {
        None
    };
    Ok((name.value(), default_id, apply_to))
}

fn trees_of(stream: TokenStream) -> Vec<TokenTree> {
    stream
        .into_iter()
        .map(|tree| match tree {
            proc_macro2::TokenTree::Group(group) => TokenTree::Group(
                match group.delimiter() {
                    proc_macro2::Delimiter::Parenthesis => Delimiter::Parenthesis,
                    proc_macro2::Delimiter::Brace => Delimiter::Brace,
                    proc_macro2::Delimiter::Bracket => Delimiter::Bracket,
                    proc_macro2::Delimiter::None => Delimiter::Invisible,
                },
                trees_of(group.stream()),
            ),
            proc_macro2::TokenTree::Ident(ident) => TokenTree::Ident(ident.to_string()),
            proc_macro2::TokenTree::Punct(punct) => {
                TokenTree::Punct(punct.as_char(), punct.spacing() == Spacing::Joint)
            }
            proc_macro2::TokenTree::Literal(literal) => TokenTree::Literal(literal.to_string()),
        })
        .collect()
}

/// Holds the library's reading of `stream` against `syn`'s: the same
/// invocation, or the same diagnostic.
fn agree(stream: TokenStream) {
    let shown = stream.to_string();
    let ours = EnvId::parse_all(&classify(&flatten(&trees_of(stream.clone()))));
    match (by_syn.parse2(stream), ours) {
        (Ok((name, default_id, apply_to)), Ok(env_id)) => {
            assert_eq!(env_id.name, name, "{shown}");
            assert_eq!(env_id.default_id.map(|d| d.ident), default_id, "{shown}");
            assert_eq!(env_id.apply_to.map(|a| a.ident), apply_to, "{shown}");
        }
        (Err(theirs), Err(ours)) => assert_eq!(ours.message(), theirs.to_string(), "{shown}"),
        (theirs, ours) => panic!("{shown}: syn gives {theirs:?}, the library {ours:?}"),
    }
}

fn stream(text: &str) -> TokenStream {
    text.parse().unwrap()
}

fn invisible(text: &str) -> TokenStream {
    TokenStream::from(proc_macro2::TokenTree::Group(Group::new(
        proc_macro2::Delimiter::None,
        stream(text),
    )))
}

#[test]
fn reads_written_invocations_as_syn_does() {
    let texts = [
        "\"HELLO\"",
        "\"HELLO\" ?: hello",
        "\"HELLO\" ? : hello",
        "\"HELLO\" => m",
        "\"HELLO\" ?: hello => def_const",
        "\"BUILD_ERROR_SYM\" ?: __build_error_impl => decl_fn",
        "\"a\\nb\\u{e9}\\\\\" ?: x",
        "r\"raw\\n\" => m",
        "r##\"a\"#b\"## ?: x",
        "\"HELLO\"suffix",
        "\"HELLO\" ?: r#fn => r#match",
        "\"HELLO\" ?: union",
        "\"\"",
    ];
    for text in texts {
        agree(stream(text));
    }
}

#[test]
fn refuses_as_syn_does() {
    let texts = [
        "",
        "HELLO",
        "1",
        "-1",
        "1.5",
        "'a'",
        "b\"HELLO\"",
        "c\"HELLO\"",
        "true",
        "? : hello",
        "(\"HELLO\")",
        "\"HELLO\" ?",
        "\"HELLO\" ? hello",
        "\"HELLO\" ?? hello",
        "\"HELLO\" ?:",
        "\"HELLO\" ?::",
        "\"HELLO\" ?: fn",
        "\"HELLO\" ?: _",
        "\"HELLO\" ?: Self",
        "\"HELLO\" ?: 1",
        "\"HELLO\" ?: \"hello\"",
        "\"HELLO\" ?: 'a",
        "\"HELLO\" ?: (hello)",
        "\"HELLO\" ?: hello world",
        "\"HELLO\" ?: hello =",
        "\"HELLO\" ?: hello = > m",
        "\"HELLO\" ?: hello =>",
        "\"HELLO\" ?: hello => fn",
        "\"HELLO\" ?: hello => m;",
        "\"HELLO\" ?: hello => m!",
        "\"HELLO\" =>",
        "\"HELLO\" => =>",
        "\"HELLO\" =>= m",
        "\"HELLO\" => m ?: hello",
        "\"HELLO\" = > m",
        "\"HELLO\" = m",
        "\"HELLO\" > m",
        "\"HELLO\" : hello",
        "\"HELLO\" ;",
        "\"HELLO\" \"WORLD\"",
        "\"HELLO\" hello",
        "\"HELLO\" {}",
        "\"HELLO\" , ?: hello",
    ];
    for text in texts {
        agree(stream(text));
    }
}

#[test]
fn looks_through_invisible_groups_as_syn_does() {
    let mut inputs: Vec<TokenStream> = Vec::new();
    // Each part of the invocation as a macro fragment.
    let mut parts = invisible("\"HELLO\"");
    parts.extend(stream("?:"));
    parts.extend(invisible("hello"));
    parts.extend(stream("=>"));
    parts.extend(invisible("m"));
    inputs.push(parts);
    // The whole invocation inside one fragment, and inside two.
    inputs.push(invisible("\"HELLO\" ?: hello => m"));
    inputs.push(TokenStream::from(proc_macro2::TokenTree::Group(Group::new(
        proc_macro2::Delimiter::None,
        invisible("\"HELLO\" ?: hello"),
    ))));
    // An operator that begins in one fragment and ends behind it.
    let mut split = stream("\"HELLO\"");
    split.extend(invisible("="));
    split.extend(stream("> m"));
    inputs.push(split);
    let mut split = stream("\"HELLO\"");
    split.extend(invisible("? : hello ="));
    split.extend(stream("> m"));
    inputs.push(split);
    // Empty fragments between the parts.
    let mut gaps = invisible("");
    gaps.extend(stream("\"HELLO\""));
    gaps.extend(invisible(""));
    gaps.extend(stream("?:"));
    gaps.extend(invisible(""));
    gaps.extend(stream("hello"));
    inputs.push(gaps);
    // Refusals inside and behind fragments.
    inputs.push(invisible("hello"));
    inputs.push(invisible("\"HELLO\" ?: fn"));
    inputs.push(invisible("\"HELLO\" ?: hello world"));
    let mut behind = invisible("\"HELLO\" ?: hello");
    behind.extend(stream("world"));
    inputs.push(behind);
    let mut inside = stream("\"HELLO\" ?:");
    inside.extend(invisible("(hello)"));
    inputs.push(inside);
    let mut colon = stream("\"HELLO\" ?");
    colon.extend(invisible("; hello"));
    inputs.push(colon);
    for input in inputs {
        agree(input);
    }
}
