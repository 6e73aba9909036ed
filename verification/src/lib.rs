//! A small type-expression introspection and rewriting engine.
//!
//! Given the already-parsed shape of a type annotation or a function
//! signature, this crate answers structural questions about it (is it a
//! bare `Result` or `Vec` wrapper, and what is its payload?), classifies
//! reference and mutability shape, validates that a signature may be
//! exposed as a synchronous entry point, and rewrites the reserved `Self`
//! placeholder to a caller-supplied token sequence throughout a nested
//! type expression while preserving source-location handles for
//! diagnostics.

pub mod loc;
pub mod token;
pub mod ast;
pub mod print;
pub mod subst;
pub mod errors;
pub mod matcher;
pub mod classify;
pub mod validate;
pub mod parse;
pub mod rewrite;
pub mod text;

pub use classify::extract_ref_mut;
pub use matcher::{extract_ok_type, extract_vec_type, path_is_result, path_is_vec, recognizes,
    type_is_result};
pub use rewrite::sanitize_self;
pub use validate::sig_is_supported;
