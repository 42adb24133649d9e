//! Rewriting the arguments of a macro call so that the derived symbol comes
//! first.
use vstd::prelude::*;

use crate::symbol::{derive_symbol, is_identifier, lemma_symbol_is_identifier, symbol_text};

verus! {

#[verifier::external_type_specification]
#[verifier::external_body]
pub struct ExTokenTree(proc_macro2::TokenTree);

/// Relies on `proc_macro2::Ident::new`, which panics unless `name` is an
/// identifier; the token gets the span of the call site.
#[verifier::external_body]
fn ident_token(name: &str) -> (r: proc_macro2::TokenTree)
    requires
        is_identifier(name@),
{
    proc_macro2::TokenTree::Ident(proc_macro2::Ident::new(name, proc_macro2::Span::call_site()))
}

/// Relies on `proc_macro2::Punct::new`: a lone `,` token.
#[verifier::external_body]
fn comma_token() -> (r: proc_macro2::TokenTree) {
    proc_macro2::TokenTree::Punct(proc_macro2::Punct::new(',', proc_macro2::Spacing::Alone))
}

/// Relies on the `Display` of `proc_macro2::TokenStream`: the text that the
/// tokens print as when they stand in one stream.
#[verifier::external_body]
fn tokens_text(args: &Vec<proc_macro2::TokenTree>) -> (r: String) {
    args.iter().cloned().collect::<proc_macro2::TokenStream>().to_string()
}

/// One argument position of a rewritten macro call.
#[derive(Debug, PartialEq, Eq)]
pub enum Arg<T> {
    /// The derived symbol, to be written as an identifier.
    Symbol(String),
    /// The separator after the symbol.
    Comma,
    /// A token of the original call.
    Token(T),
}

/// The arguments of a call with text `seed` in the file at `path`, after
/// rewriting: the symbol derived from `path` and `seed`, a comma, then `args`
/// unchanged and in their order.
pub fn insert_symbol<T>(path: &str, seed: &str, args: Vec<T>) -> (r: Vec<Arg<T>>)
    ensures
        r@.len() == args@.len() + 2,
        r@[0] is Symbol && r@[0]->Symbol_0@ == symbol_text(path@, seed@),
        r@[1] is Comma,
        forall|i: int| 0 <= i < args@.len() ==> #[trigger] r@[i + 2] == Arg::Token(args@[i]),
{
    let name = derive_symbol(path, seed);
    let mut r: Vec<Arg<T>> = Vec::new();
    r.push(Arg::Symbol(name));
    r.push(Arg::Comma);
    let mut rest = args;
    let ghost original = rest@;
    assert(original.len() == rest.len());
    let mut i: usize = 0;
    while rest.len() > 0
        invariant
            r@.len() == i + 2,
            i + rest@.len() == original.len(),
            original.len() <= usize::MAX,
            rest@ == original.subrange(i as int, original.len() as int),
            r@[0] is Symbol && r@[0]->Symbol_0@ == symbol_text(path@, seed@),
            r@[1] is Comma,
            forall|j: int| 0 <= j < i ==> #[trigger] r@[j + 2] == Arg::Token(original[j]),
        decreases rest@.len(),
    {
        let t = rest.remove(0);
        r.push(Arg::Token(t));
        i = i + 1;
    }
    r
}

/// The proc-macro tokens for rewritten arguments: each symbol becomes an
/// identifier with the span of the call site, each comma a lone `,`, and each
/// original token stays as it is.
pub fn to_token_trees(args: Vec<Arg<proc_macro2::TokenTree>>) -> (r: Vec<proc_macro2::TokenTree>)
    requires
        forall|i: int|
            0 <= i < args@.len() && (#[trigger] args@[i]) is Symbol ==> is_identifier(
                args@[i]->Symbol_0@,
            ),
    ensures
        r@.len() == args@.len(),
        forall|i: int|
            0 <= i < args@.len() && (#[trigger] args@[i]) is Token ==> r@[i] == args@[i]->Token_0,
{
    let mut r: Vec<proc_macro2::TokenTree> = Vec::new();
    let mut rest = args;
    let ghost original = rest@;
    assert(original.len() == rest.len());
    let mut i: usize = 0;
    while rest.len() > 0
        invariant
            r@.len() == i,
            i + rest@.len() == original.len(),
            original.len() <= usize::MAX,
            rest@ == original.subrange(i as int, original.len() as int),
            forall|j: int|
                0 <= j < original.len() && (#[trigger] original[j]) is Symbol ==> is_identifier(
                    original[j]->Symbol_0@,
                ),
            forall|j: int|
                0 <= j < i && (#[trigger] original[j]) is Token ==> r@[j] == original[j]->Token_0,
        decreases rest@.len(),
    {
        let a = rest.remove(0);
        assert(a == original[i as int]);
        let t = match a {
            Arg::Symbol(name) => ident_token(name.as_str()),
            Arg::Comma => comma_token(),
            Arg::Token(t) => t,
        };
        r.push(t);
        i = i + 1;
    }
    r
}

/// The arguments of a macro call in the file at `path` after rewriting, as
/// proc-macro tokens: the identifier that `insert_symbol` derives from `path`
/// and from the text that `args` print as, a comma, then `args` unchanged and
/// in their order.
pub fn alter_args(path: &str, args: Vec<proc_macro2::TokenTree>) -> (r: Vec<proc_macro2::TokenTree>)
    ensures
        r@.len() == args@.len() + 2,
        r@.subrange(2, r@.len() as int) == args@,
{
    let seed = tokens_text(&args);
    let ghost original = args@;
    let marked = insert_symbol(path, seed.as_str(), args);
    proof {
        lemma_symbol_is_identifier(path@, seed@);
        assert forall|i: int| 0 <= i < marked@.len() && (#[trigger] marked@[i]) is Symbol implies is_identifier(
            marked@[i]->Symbol_0@,
        ) by {
            if i >= 2 {
                assert(marked@[(i - 2) + 2] == Arg::Token(original[i - 2]));
            }
        }
    }
    let r = to_token_trees(marked);
    assert forall|i: int| 0 <= i < original.len() implies #[trigger] r@[i + 2] == original[i] by {
        assert(marked@[i + 2] == Arg::Token(original[i]));
    }
    assert(r@.subrange(2, r@.len() as int) =~= original);
    r
}

} // verus!
