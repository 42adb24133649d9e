use detsym::{alter_args, derive_symbol, insert_symbol, to_token_trees, Arg};
use proc_macro2::{TokenStream, TokenTree};

#[test]
fn insert_symbol_puts_symbol_and_comma_before_arguments() {
    let out = insert_symbol("a.rs", "u64, u64", vec!["u64", ",", "u64"]);
    assert_eq!(
        out,
        vec![
            Arg::Symbol("DETSYM0E28EFB73A8657AAB0BCF21F6AC2ECB1".to_string()),
            Arg::Comma,
            Arg::Token("u64"),
            Arg::Token(","),
            Arg::Token("u64"),
        ]
    );
}

#[test]
fn insert_symbol_on_no_arguments() {
    let out: Vec<Arg<u8>> = insert_symbol("b.rs", "", Vec::new());
    assert_eq!(
        out,
        vec![Arg::Symbol("DETSYMA95B333D70D254AF8FD41092771C214F".to_string()), Arg::Comma]
    );
}

#[test]
fn insert_symbol_same_call_in_different_files() {
    let a = insert_symbol("a.rs", "u64, u64", vec![1, 2]);
    let b = insert_symbol("b.rs", "u64, u64", vec![1, 2]);
    assert_ne!(a[0], b[0]);
    assert_eq!(a[1..], b[1..]);
}

#[test]
fn insert_symbol_different_calls_in_same_file() {
    let a = insert_symbol("a.rs", "u64, u64", vec![1]);
    let b = insert_symbol("a.rs", "u32, u32", vec![1]);
    assert_ne!(a[0], b[0]);
    assert_eq!(insert_symbol("a.rs", "u64, u64", vec![1]), a);
}

#[test]
fn to_token_trees_writes_symbol_and_comma() {
    let original: Vec<TokenTree> = "x".parse::<TokenStream>().unwrap().into_iter().collect();
    let out = to_token_trees(vec![
        Arg::Symbol("DETSYM00".to_string()),
        Arg::Comma,
        Arg::Token(original[0].clone()),
    ]);
    assert_eq!(out.len(), 3);
    match &out[0] {
        TokenTree::Ident(i) => assert_eq!(i.to_string(), "DETSYM00"),
        other => panic!("expected an identifier, got {}", other),
    }
    match &out[1] {
        TokenTree::Punct(p) => assert_eq!(p.as_char(), ','),
        other => panic!("expected a comma, got {}", other),
    }
    assert_eq!(out[2].to_string(), "x");
}

#[test]
fn alter_args_puts_symbol_and_comma_first() {
    let stream: TokenStream = "u64, u64".parse().unwrap();
    let seed = stream.to_string();
    let args: Vec<TokenTree> = stream.into_iter().collect();
    let before: Vec<String> = args.iter().map(|t| t.to_string()).collect();
    let out = alter_args("a.rs", args);
    assert_eq!(out.len(), before.len() + 2);
    match &out[0] {
        TokenTree::Ident(i) => assert_eq!(i.to_string(), derive_symbol("a.rs", &seed)),
        other => panic!("expected an identifier, got {}", other),
    }
    match &out[1] {
        TokenTree::Punct(p) => assert_eq!(p.as_char(), ','),
        other => panic!("expected a comma, got {}", other),
    }
    let after: Vec<String> = out[2..].iter().map(|t| t.to_string()).collect();
    assert_eq!(after, before);
}

#[test]
fn alter_args_on_empty_call() {
    let out = alter_args("b.rs", Vec::new());
    assert_eq!(out.len(), 2);
    assert_eq!(out[0].to_string(), "DETSYMA95B333D70D254AF8FD41092771C214F");
    assert_eq!(out[1].to_string(), ",");
}

#[test]
fn alter_args_keeps_groups_and_literals() {
    let stream: TokenStream = "a, (b, c), [d; 2], \"s\"".parse().unwrap();
    let args: Vec<TokenTree> = stream.clone().into_iter().collect();
    let before: Vec<String> = args.iter().map(|t| t.to_string()).collect();
    let out = alter_args("src/lib.rs", args);
    assert_eq!(out[0].to_string(), derive_symbol("src/lib.rs", &stream.to_string()));
    let after: Vec<String> = out[2..].iter().map(|t| t.to_string()).collect();
    assert_eq!(after, before);
}
