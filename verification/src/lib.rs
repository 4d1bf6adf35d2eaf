//! A typed builder for FQL, the functional query language of a remote
//! document database, together with a verified canonical JSON encoder.
//!
//! A caller builds a tree of [`expr::Expr`] values — literals, references,
//! plain objects and arrays, and nested query calls — and hands the tree to
//! [`codec::encode`], which produces the one canonical JSON text of that
//! tree. The grammar reserves top-level object keys (`"and"`, `"get"`, …)
//! for query forms, so a caller-supplied plain object is wrapped as
//! `{"object": …}`; the wrapping and every other rule of the wire shape are
//! stated as contracts and proved.

pub mod base64;
pub mod codec;
pub mod expr;
pub mod json;
pub mod laws;
pub mod query;

pub use json::JsonV;
