//! A read-only projection of a variable-font source document onto the flat,
//! editor-facing view model: packed outlines, decomposed component transforms,
//! per-glyph sources with resolved design-space locations, axes and font info.
//!
//! The projection is this library's own work and is verified here: it reads a
//! plain-value model of the document (see `model`), which callers build from
//! the document that babelfont loaded. babelfont is still what writes the
//! document back out. babelfont carries a conversion of its own to the same
//! view shape, which rounds packed coordinates and transform fields to `f32`;
//! this library keeps every value exactly, as the bits of an `f64`.
#![allow(non_snake_case)]

pub mod model;
pub mod view;
pub mod pack;
pub mod project;
pub mod font;
