//! The flag saying which layout a listing uses.

use crate::config_file::Config;
use crate::flags::Args;
use crate::text::str_eq;
use vstd::prelude::*;

verus! {

/// How listed entries are arranged.
#[derive(Clone, Copy, Debug, PartialEq, Eq, Structural)]
pub enum Layout {
    Grid,
    Tree,
    OneLine,
}

/// The variant named by a configuration string, `None` for any string
/// outside the recognized set.
pub open spec fn layout_from_str_spec(s: Seq<char>) -> Option<Layout> {
    if s == "grid"@ {
        Some(Layout::Grid)
    } else if s == "tree"@ {
        Some(Layout::Tree)
    } else if s == "oneline"@ {
        Some(Layout::OneLine)
    } else {
        None
    }
}

impl Layout {
    /// Reads a variant from its configuration name; a string outside the
    /// recognized set is a recoverable mismatch and yields `None`.
    pub fn from_str(value: &str) -> (r: Option<Self>)
        ensures
            r == layout_from_str_spec(value@),
    {
        if str_eq(value, "grid") {
            Some(Self::Grid)
        } else if str_eq(value, "tree") {
            Some(Self::Tree)
        } else if str_eq(value, "oneline") {
            Some(Self::OneLine)
        } else {
            None
        }
    }

    /// The argument layer: whichever of the two layout presence flags is
    /// set.
    pub open spec fn from_args_spec(args: Args) -> Option<Layout> {
        if args.tree {
            Some(Layout::Tree)
        } else if args.oneline {
            Some(Layout::OneLine)
        } else {
            None
        }
    }

    /// A potential variant from the invocation arguments.
    pub fn from_arg_matches(args: &Args) -> (r: Option<Self>)
        ensures
            r == Self::from_args_spec(*args),
    {
        if args.tree {
            Some(Self::Tree)
        } else if args.oneline {
            Some(Self::OneLine)
        } else {
            None
        }
    }

    /// The document layer: the `layout` field, where it names a variant.
    pub open spec fn from_config_spec(config: Config) -> Option<Layout> {
        match config.layout {
            Some(s) => layout_from_str_spec(s@),
            None => None,
        }
    }

    /// A potential variant from a configuration document.
    pub fn from_config(config: &Config) -> (r: Option<Self>)
        ensures
            r == Self::from_config_spec(*config),
    {
        match &config.layout {
            Some(s) => Self::from_str(s.as_str()),
            None => None,
        }
    }
}

impl Default for Layout {
    /// Unconfigured listings use the grid layout.
    fn default() -> (r: Self)
        ensures
            r == Layout::Grid,
    {
        Self::Grid
    }
}

} // verus!
