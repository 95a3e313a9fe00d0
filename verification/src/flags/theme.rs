//! The flag naming the color theme file.
//!
//! The color theme is resolved as a path override only: an explicit
//! argument names the file, else the document's `color.theme` field does,
//! else the built-in file name is used. No per-key merge is defined for
//! color themes (unlike icon themes).

use crate::config_file::Config;
use crate::flags::Args;
use vstd::prelude::*;

verus! {

/// Where the color theme file stands.
#[derive(Clone, Debug, PartialEq, Eq)]
pub struct ColorTheme {
    pub path: String,
}

impl ColorTheme {
    /// A potential path from the invocation arguments.
    pub fn from_arg_matches(args: &Args) -> (r: Option<Self>)
        ensures
            match args.color_theme {
                Some(p) => r matches Some(t) && t.path@ == p@,
                None => r is None,
            },
    {
        match &args.color_theme {
            Some(p) => Some(Self { path: p.clone() }),
            None => None,
        }
    }

    /// A potential path from the document's `color.theme` field.
    pub fn from_config(config: &Config) -> (r: Option<Self>)
        ensures
            match config.color {
                Some(section) => match section.theme {
                    Some(p) => r matches Some(t) && t.path@ == p@,
                    None => r is None,
                },
                None => r is None,
            },
    {
        match &config.color {
            Some(section) => match &section.theme {
                Some(p) => Some(Self { path: p.clone() }),
                None => None,
            },
            None => None,
        }
    }
}

impl Default for ColorTheme {
    /// The built-in color theme file name.
    fn default() -> (r: Self)
        ensures
            r.path@ == "theme.yaml"@,
    {
        Self { path: String::from_str("theme.yaml") }
    }
}

} // verus!
