//! The flags saying when icons are printed and from which glyph set.

use crate::config_file::Config;
use crate::flags::Args;
use crate::text::str_eq;
use vstd::prelude::*;

verus! {

/// When to print icons.
#[derive(Clone, Copy, Debug, PartialEq, Eq, Structural)]
pub enum IconOption {
    Always,
    Auto,
    Never,
}

/// The variant named by a configuration string, `None` for any string
/// outside the recognized set.
pub open spec fn icon_option_from_str_spec(s: Seq<char>) -> Option<IconOption> {
    if s == "always"@ {
        Some(IconOption::Always)
    } else if s == "auto"@ {
        Some(IconOption::Auto)
    } else if s == "never"@ {
        Some(IconOption::Never)
    } else {
        None
    }
}

impl IconOption {
    /// Reads a variant from its configuration name; a string outside the
    /// recognized set is a recoverable mismatch and yields `None`.
    pub fn from_str(value: &str) -> (r: Option<Self>)
        ensures
            r == icon_option_from_str_spec(value@),
    {
        if str_eq(value, "always") {
            Some(Self::Always)
        } else if str_eq(value, "auto") {
            Some(Self::Auto)
        } else if str_eq(value, "never") {
            Some(Self::Never)
        } else {
            None
        }
    }

    /// The argument layer: the value following the icon flag.
    pub open spec fn from_args_spec(args: Args) -> Option<IconOption> {
        match args.icon {
            Some(s) => icon_option_from_str_spec(s@),
            None => None,
        }
    }

    /// A potential variant from the invocation arguments.
    pub fn from_arg_matches(args: &Args) -> (r: Option<Self>)
        ensures
            r == Self::from_args_spec(*args),
    {
        match &args.icon {
            Some(s) => Self::from_str(s.as_str()),
            None => None,
        }
    }

    /// The document layer: the `icons.when` field, where it names a variant.
    pub open spec fn from_config_spec(config: Config) -> Option<IconOption> {
        match config.icons {
            Some(section) => match section.when {
                Some(s) => icon_option_from_str_spec(s@),
                None => None,
            },
            None => None,
        }
    }

    /// A potential variant from a configuration document.
    pub fn from_config(config: &Config) -> (r: Option<Self>)
        ensures
            r == Self::from_config_spec(*config),
    {
        match &config.icons {
            Some(section) => match &section.when {
                Some(s) => Self::from_str(s.as_str()),
                None => None,
            },
            None => None,
        }
    }
}

impl Default for IconOption {
    /// Unconfigured listings print icons only on interactive destinations.
    fn default() -> (r: Self)
        ensures
            r == IconOption::Auto,
    {
        Self::Auto
    }
}

/// Which built-in glyph set the icons come from.
#[derive(Clone, Copy, Debug, PartialEq, Eq, Structural)]
pub enum IconTheme {
    Fancy,
    Unicode,
}

/// The variant named by a configuration string, `None` for any string
/// outside the recognized set.
pub open spec fn icon_theme_from_str_spec(s: Seq<char>) -> Option<IconTheme> {
    if s == "fancy"@ {
        Some(IconTheme::Fancy)
    } else if s == "unicode"@ {
        Some(IconTheme::Unicode)
    } else {
        None
    }
}

impl IconTheme {
    /// Reads a variant from its configuration name; a string outside the
    /// recognized set is a recoverable mismatch and yields `None`.
    pub fn from_str(value: &str) -> (r: Option<Self>)
        ensures
            r == icon_theme_from_str_spec(value@),
    {
        if str_eq(value, "fancy") {
            Some(Self::Fancy)
        } else if str_eq(value, "unicode") {
            Some(Self::Unicode)
        } else {
            None
        }
    }

    /// The argument layer: the value following the icon-theme flag.
    pub open spec fn from_args_spec(args: Args) -> Option<IconTheme> {
        match args.icon_theme {
            Some(s) => icon_theme_from_str_spec(s@),
            None => None,
        }
    }

    /// A potential variant from the invocation arguments.
    pub fn from_arg_matches(args: &Args) -> (r: Option<Self>)
        ensures
            r == Self::from_args_spec(*args),
    {
        match &args.icon_theme {
            Some(s) => Self::from_str(s.as_str()),
            None => None,
        }
    }

    /// The document layer: the `icons.theme` field, where it names a
    /// variant.
    pub open spec fn from_config_spec(config: Config) -> Option<IconTheme> {
        match config.icons {
            Some(section) => match section.theme {
                Some(s) => icon_theme_from_str_spec(s@),
                None => None,
            },
            None => None,
        }
    }

    /// A potential variant from a configuration document.
    pub fn from_config(config: &Config) -> (r: Option<Self>)
        ensures
            r == Self::from_config_spec(*config),
    {
        match &config.icons {
            Some(section) => match &section.theme {
                Some(s) => Self::from_str(s.as_str()),
                None => None,
            },
            None => None,
        }
    }
}

impl Default for IconTheme {
    /// Unconfigured listings use the fancy glyph set.
    fn default() -> (r: Self)
        ensures
            r == IconTheme::Fancy,
    {
        Self::Fancy
    }
}

} // verus!
