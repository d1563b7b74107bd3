//! JSON-backed textual representations for structured values.
//!
//! A value that supports structured serialization is modelled as a [`value::JsonValue`]
//! tree.  The library binds the two standard formatting conventions (debug-oriented and
//! display-oriented) to JSON text in one of two modes: pretty (indented, multi-line) or
//! simple (compact, single-line).  The actual encoding is performed by an external JSON
//! serializer; the text it produces is pinned down exactly by the specification
//! functions in [`text`], and a serialization failure is absorbed into a fixed-format
//! error message rather than a panic.

pub mod laws;
pub mod render;
pub mod serial;
pub mod text;
pub mod value;
