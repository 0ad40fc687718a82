//! Token trees as a macro receives them, and the flat token sequence that a
//! parser walks.

use vstd::prelude::*;

verus! {

/// How a group of tokens is delimited.
#[derive(Clone, Copy, Debug, PartialEq, Eq, Structural)]
pub enum Delimiter {
    /// `( ... )`
    Parenthesis,
    /// `{ ... }`
    Brace,
    /// `[ ... ]`
    Bracket,
    /// No visible delimiter: the group stands for a macro fragment, and a
    /// parser looks through it.
    Invisible,
}

/// One token, or a delimited group of token trees.
#[derive(Debug, PartialEq, Eq)]
pub enum TokenTree {
    /// A delimited group and the trees inside it.
    Group(Delimiter, Vec<TokenTree>),
    /// An identifier or a keyword, as written (`r#` included).
    Ident(String),
    /// A punctuation character, and whether the next punctuation character
    /// follows it at once, so that the two can form one operator.
    Punct(char, bool),
    /// A literal, as written.
    Literal(String),
}

/// One position of the flat sequence that a parser walks: a token, or a
/// visibly delimited group taken as a whole.
#[derive(Debug, PartialEq, Eq)]
pub enum Token {
    Group(Delimiter),
    Ident(String),
    Punct(char, bool),
    Literal(String),
}

/// What a `Token` holds, as mathematical values.
pub enum TokenView {
    Group(Delimiter),
    Ident(Seq<char>),
    Punct(char, bool),
    Literal(Seq<char>),
}

impl View for Token {
    type V = TokenView;

    open spec fn view(&self) -> TokenView {
        match *self {
            Token::Group(d) => TokenView::Group(d),
            Token::Ident(s) => TokenView::Ident(s@),
            Token::Punct(c, j) => TokenView::Punct(c, j),
            Token::Literal(s) => TokenView::Literal(s@),
        }
    }
}

/// The views of a sequence of tokens.
pub open spec fn token_views(tokens: Seq<Token>) -> Seq<TokenView> {
    tokens.map_values(|t: Token| t@)
}

/// What a `TokenTree` holds, as mathematical values.
pub enum TreeView {
    Group(Delimiter, Seq<TreeView>),
    Ident(Seq<char>),
    Punct(char, bool),
    Literal(Seq<char>),
}

/// The view of one tree.
pub open spec fn tree_view(tree: TokenTree) -> TreeView
    decreases tree, 0nat,
{
    match tree {
        TokenTree::Group(d, inner) => TreeView::Group(d, tree_views(inner@, inner@.len())),
        TokenTree::Ident(s) => TreeView::Ident(s@),
        TokenTree::Punct(c, j) => TreeView::Punct(c, j),
        TokenTree::Literal(s) => TreeView::Literal(s@),
    }
}

/// The views of the first `n` trees of `trees`.
pub open spec fn tree_views(trees: Seq<TokenTree>, n: nat) -> Seq<TreeView>
    decreases trees, n,
{
    if n == 0 || n > trees.len() {
        Seq::<TreeView>::empty()
    } else {
        tree_views(trees, (n - 1) as nat).push(tree_view(trees[n - 1]))
    }
}

impl View for TokenTree {
    type V = TreeView;

    open spec fn view(&self) -> TreeView {
        tree_view(*self)
    }
}

/// The views of a sequence of trees.
pub open spec fn forest(trees: Seq<TokenTree>) -> Seq<TreeView> {
    tree_views(trees, trees.len())
}

/// `tree_views` goes tree by tree.
proof fn lemma_tree_views(trees: Seq<TokenTree>, n: nat)
    requires
        n <= trees.len(),
    ensures
        tree_views(trees, n).len() == n,
        forall|i: int| 0 <= i < n ==> #[trigger] tree_views(trees, n)[i] == trees[i]@,
    decreases n,
{
    if n > 0 {
        lemma_tree_views(trees, (n - 1) as nat);
    }
}

/// The view of a sequence of trees holds the view of each, in order.
pub proof fn lemma_forest(trees: Seq<TokenTree>)
    ensures
        forest(trees).len() == trees.len(),
        forall|i: int| 0 <= i < trees.len() ==> #[trigger] forest(trees)[i] == trees[i]@,
{
    lemma_tree_views(trees, trees.len());
}

/// The flat sequence that a tree stands for: an invisible group stands for
/// what its contents stand for, anything else for itself.
pub open spec fn flat_tree(tree: TreeView) -> Seq<TokenView>
    decreases tree,
{
    match tree {
        TreeView::Group(Delimiter::Invisible, inner) => flat(inner),
        TreeView::Group(d, _) => seq![TokenView::Group(d)],
        TreeView::Ident(s) => seq![TokenView::Ident(s)],
        TreeView::Punct(c, j) => seq![TokenView::Punct(c, j)],
        TreeView::Literal(s) => seq![TokenView::Literal(s)],
    }
}

/// The flat sequence that a sequence of trees stands for: what each tree
/// stands for, one after the other.
pub open spec fn flat(trees: Seq<TreeView>) -> Seq<TokenView>
    decreases trees,
{
    if trees.len() == 0 {
        Seq::<TokenView>::empty()
    } else {
        flat(trees.drop_last()) + flat_tree(trees.last())
    }
}

/// The flat sequence of two sequences of trees, one after the other, is
/// the flat sequence of the first followed by that of the second.
pub proof fn lemma_flat_concat(a: Seq<TreeView>, b: Seq<TreeView>)
    ensures
        flat(a + b) == flat(a) + flat(b),
    decreases b.len(),
{
    if b.len() == 0 {
        assert(a + b =~= a);
        assert(flat(a) + flat(b) =~= flat(a));
    } else {
        lemma_flat_concat(a, b.drop_last());
        assert((a + b).drop_last() =~= a + b.drop_last());
        assert((a + b).last() == b.last());
        assert(flat(a + b) =~= flat(a) + flat(b));
    }
}

/// Whether a tree is no invisible group.
pub open spec fn visible(tree: TreeView) -> bool {
    !(tree matches TreeView::Group(d, _) && d == Delimiter::Invisible)
}

/// Where no tree is an invisible group, the flat sequence has one position
/// for each tree.
pub proof fn lemma_flat_visible(trees: Seq<TreeView>)
    requires
        forall|i: int| 0 <= i < trees.len() ==> visible(#[trigger] trees[i]),
    ensures
        flat(trees).len() == trees.len(),
        forall|i: int| 0 <= i < trees.len() ==> seq![#[trigger] flat(trees)[i]] == flat_tree(trees[i]),
    decreases trees.len(),
{
    if trees.len() > 0 {
        lemma_flat_visible(trees.drop_last());
        let last = trees.last();
        assert(visible(last));
        assert(flat_tree(last).len() == 1);
        assert forall|i: int| 0 <= i < trees.len() implies seq![#[trigger] flat(trees)[i]]
            == flat_tree(trees[i]) by {
            if i < trees.len() - 1 {
                assert(trees.drop_last()[i] == trees[i]);
                assert(flat(trees)[i] == flat(trees.drop_last())[i]);
            } else {
                assert(seq![flat(trees)[i]] =~= flat_tree(last));
            }
        }
    }
}

/// Appending a token appends its view.
proof fn lemma_views_push(tokens: Seq<Token>, token: Token)
    ensures
        token_views(tokens.push(token)) == token_views(tokens) + seq![token@],
{
    assert(token_views(tokens.push(token)) =~= token_views(tokens) + seq![token@]);
}

/// Appends to `out` the flat sequence that `trees` stand for.
fn flatten_into(trees: &Vec<TokenTree>, out: &mut Vec<Token>)
    ensures
        token_views(final(out)@) == token_views(old(out)@) + flat(forest(trees@)),
    decreases trees,
{
    let ghost views = forest(trees@);
    proof {
        lemma_forest(trees@);
    }
    let mut i: usize = 0;
    assert(views.take(0) =~= Seq::<TreeView>::empty());
    while i < trees.len()
        invariant
            i <= trees.len(),
            views == forest(trees@),
            views.len() == trees.len(),
            forall|k: int| 0 <= k < trees.len() ==> #[trigger] views[k] == trees@[k]@,
            token_views(out@) == token_views(old(out)@) + flat(views.take(i as int)),
        decreases trees.len() - i,
    {
        let ghost before = out@;
        let ghost upto = views.take(i + 1);
        proof {
            assert(upto.drop_last() =~= views.take(i as int));
            assert(upto.last() == tree_view(trees@[i as int]));
            assert(flat(upto) == flat(views.take(i as int)) + flat_tree(upto.last()));
        }
        match &trees[i] {
            TokenTree::Group(delimiter, inner) => {
                match delimiter {
                    Delimiter::Invisible => {
                        flatten_into(inner, out);
                    },
                    _ => {
                        out.push(Token::Group(*delimiter));
                        proof {
                            lemma_views_push(before, Token::Group(*delimiter));
                        }
                    },
                }
            },
            TokenTree::Ident(text) => {
                let token = Token::Ident(text.clone());
                proof {
                    lemma_views_push(before, token);
                }
                out.push(token);
            },
            TokenTree::Punct(ch, joint) => {
                out.push(Token::Punct(*ch, *joint));
                proof {
                    lemma_views_push(before, Token::Punct(*ch, *joint));
                }
            },
            TokenTree::Literal(text) => {
                let token = Token::Literal(text.clone());
                proof {
                    lemma_views_push(before, token);
                }
                out.push(token);
            },
        }
        assert(token_views(out@) =~= token_views(old(out)@) + flat(upto));
        i += 1;
    }
    assert(views.take(i as int) =~= views);
}

/// The flat token sequence that a parser walks over `trees`: every invisible
/// group is replaced by what is inside it, at any depth, and every other
/// group is kept as one position.
pub fn flatten(trees: &Vec<TokenTree>) -> (tokens: Vec<Token>)
    ensures
        token_views(tokens@) == flat(forest(trees@)),
{
    let mut tokens: Vec<Token> = Vec::new();
    flatten_into(trees, &mut tokens);
    assert(token_views(Seq::<Token>::empty()) =~= Seq::<TokenView>::empty());
    tokens
}

} // verus!
