//! The flag saying when output is colorized.

use crate::config_file::Config;
use crate::flags::Args;
use crate::text::str_eq;
use vstd::prelude::*;

verus! {

/// When to colorize the output.
#[derive(Clone, Copy, Debug, PartialEq, Eq, Structural)]
pub enum ColorOption {
    Always,
    Auto,
    Never,
}

/// The variant named by a configuration string, `None` for any string
/// outside the recognized set.
pub open spec fn color_from_str_spec(s: Seq<char>) -> Option<ColorOption> {
    if s == "always"@ {
        Some(ColorOption::Always)
    } else if s == "auto"@ {
        Some(ColorOption::Auto)
    } else if s == "never"@ {
        Some(ColorOption::Never)
    } else {
        None
    }
}

impl ColorOption {
    /// Reads a variant from its configuration name; a string outside the
    /// recognized set is a recoverable mismatch and yields `None`.
    pub fn from_str(value: &str) -> (r: Option<Self>)
        ensures
            r == color_from_str_spec(value@),
    {
        if str_eq(value, "always") {
            Some(Self::Always)
        } else if str_eq(value, "auto") {
            Some(Self::Auto)
        } else if str_eq(value, "never") {
            Some(Self::Never)
        } else {
            None
        }
    }

    /// The argument layer: the value following the color flag.
    pub open spec fn from_args_spec(args: Args) -> Option<ColorOption> {
        match args.color {
            Some(s) => color_from_str_spec(s@),
            None => None,
        }
    }

    /// A potential variant from the invocation arguments.
    pub fn from_arg_matches(args: &Args) -> (r: Option<Self>)
        ensures
            r == Self::from_args_spec(*args),
    {
        match &args.color {
            Some(s) => Self::from_str(s.as_str()),
            None => None,
        }
    }

    /// The document layer: the `color.when` field, where it names a variant.
    pub open spec fn from_config_spec(config: Config) -> Option<ColorOption> {
        match config.color {
            Some(section) => match section.when {
                Some(s) => color_from_str_spec(s@),
                None => None,
            },
            None => None,
        }
    }

    /// A potential variant from a configuration document.
    pub fn from_config(config: &Config) -> (r: Option<Self>)
        ensures
            r == Self::from_config_spec(*config),
    {
        match &config.color {
            Some(section) => match &section.when {
                Some(s) => Self::from_str(s.as_str()),
                None => None,
            },
            None => None,
        }
    }
}

impl Default for ColorOption {
    /// Unconfigured output colorizes only interactive destinations.
    fn default() -> (r: Self)
        ensures
            r == ColorOption::Auto,
    {
        Self::Auto
    }
}

} // verus!
