//! Derives a typed parameter schema from a localization resource written in
//! the Fluent translation-message grammar, and bundles it with the raw
//! per-locale resource text into one generated source document.
//!
//! The grammar itself is handled by the `fluent-syntax` parser behind a small
//! trusted boundary in [`parse`]; everything after it — walking the tree to
//! collect each message's variable names ([`extract`]), rendering the schema
//! text ([`render`]) and composing the output document ([`compose`]) — is
//! verified, and the general properties of those functions are stated and
//! proved in [`laws`].

pub mod ast;
pub mod compose;
pub mod extract;
pub mod laws;
pub mod parse;
pub mod render;
