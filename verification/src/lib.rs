//! A small site builder: a registry of named template fragments, a fixed
//! data context, a page renderer that composes the fragments into one HTML
//! page, a whole-file exporter, and the decision logic of a live render
//! server that re-renders the page for every request.

pub mod context;
pub mod engine;
pub mod errors;
pub mod export;
pub mod kv;
pub mod registry;
pub mod server;
