//! The flag showing which file system nodes to display.

use crate::config_file::Config;
use crate::flags::Args;
use crate::text::str_eq;
use vstd::prelude::*;

verus! {

/// Which entries a listing shows.
#[derive(Clone, Copy, Debug, PartialEq, Eq, Structural)]
pub enum Display {
    All,
    AlmostAll,
    DirectoryItself,
    DisplayOnlyVisible,
}

/// The variant named by a configuration string, `None` for any string
/// outside the recognized set.
pub open spec fn display_from_str_spec(s: Seq<char>) -> Option<Display> {
    if s == "all"@ {
        Some(Display::All)
    } else if s == "almost-all"@ {
        Some(Display::AlmostAll)
    } else if s == "directory-only"@ {
        Some(Display::DirectoryItself)
    } else {
        None
    }
}

impl Display {
    /// Reads a variant from its configuration name; a string outside the
    /// recognized set is a recoverable mismatch and yields `None`.
    pub fn from_str(value: &str) -> (r: Option<Self>)
        ensures
            r == display_from_str_spec(value@),
    {
        if str_eq(value, "all") {
            Some(Self::All)
        } else if str_eq(value, "almost-all") {
            Some(Self::AlmostAll)
        } else if str_eq(value, "directory-only") {
            Some(Self::DirectoryItself)
        } else {
            None
        }
    }

    /// The argument layer: whichever of the three presence flags is set.
    pub open spec fn from_args_spec(args: Args) -> Option<Display> {
        if args.all {
            Some(Display::All)
        } else if args.almost_all {
            Some(Display::AlmostAll)
        } else if args.directory_only {
            Some(Display::DirectoryItself)
        } else {
            None
        }
    }

    /// A potential variant from the invocation arguments.
    pub fn from_arg_matches(args: &Args) -> (r: Option<Self>)
        ensures
            r == Self::from_args_spec(*args),
    {
        if args.all {
            Some(Self::All)
        } else if args.almost_all {
            Some(Self::AlmostAll)
        } else if args.directory_only {
            Some(Self::DirectoryItself)
        } else {
            None
        }
    }

    /// The document layer: the `display` field, where it names a variant.
    pub open spec fn from_config_spec(config: Config) -> Option<Display> {
        match config.display {
            Some(s) => display_from_str_spec(s@),
            None => None,
        }
    }

    /// A potential variant from a configuration document.
    pub fn from_config(config: &Config) -> (r: Option<Self>)
        ensures
            r == Self::from_config_spec(*config),
    {
        match &config.display {
            Some(s) => Self::from_str(s.as_str()),
            None => None,
        }
    }
}

impl Default for Display {
    /// Unconfigured listings show only visible entries.
    fn default() -> (r: Self)
        ensures
            r == Display::DisplayOnlyVisible,
    {
        Self::DisplayOnlyVisible
    }
}

} // verus!
