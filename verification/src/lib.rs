//! Configuration resolution and icon assignment for a directory-listing tool.
//!
//! Every tunable option is resolved by merging three layered sources, in
//! strict precedence order: explicit invocation arguments, an optional
//! persisted configuration document, and built-in defaults. The resolved
//! theme choice then drives an icon lookup table that maps a file's type,
//! name and extension to a display glyph through an ordered fallback chain.

pub mod config_file;
pub mod flags;
pub mod icon;
pub mod text;
pub mod theme;
pub mod yaml;
