//! Translates the declaration surface of a TypeScript module — exported
//! functions and classes from an ambient declaration file — into a
//! binding document: an ordered, language-neutral description of how a
//! host program calls the equivalent objects in an external script
//! engine.
//!
//! The pipeline is pure: a parsed module (modeled by [`ast`]) and a
//! module name go in, a [`doc::BindingDocument`] or a typed failure
//! comes out. Parsing source text and rendering the document into
//! host-language tokens are left to callers.

pub mod assembler;
pub mod ast;
pub mod binder;
pub mod doc;
pub mod laws;
pub mod mapper;
pub mod params;
pub mod resolver;
pub mod walker;
