//! Error-to-HTTP-response mapping for a documentation-hosting web
//! application: classifies failures into a closed taxonomy, derives the
//! HTTP status code, and renders the matching human-facing page model.

pub mod error;
pub mod page;
pub mod query;
pub mod render;
