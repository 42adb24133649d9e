//! Deterministic symbol derivation for macro expansion.
//!
//! A macro call `name!{ args }` that sits in a file with path `p` is rewritten
//! into `name!{ SYM, args }`, where `SYM` is an identifier derived from `p` and
//! from the text of `args` through name-based (version 5) UUIDs. The same call
//! in the same file always receives the same identifier.
use vstd::prelude::*;

pub mod hex;
pub mod rewrite;
pub mod symbol;

pub use rewrite::{alter_args, insert_symbol, to_token_trees, Arg};
pub use symbol::{base_namespace, derive_symbol, file_namespace, symbol_name, symbol_uuid};
