//! The flag saying how the size column is formatted.

use crate::config_file::Config;
use crate::flags::Args;
use crate::text::str_eq;
use vstd::prelude::*;

verus! {

/// The format of the size column.
#[derive(Clone, Copy, Debug, PartialEq, Eq, Structural)]
pub enum SizeFlag {
    Default,
    Short,
    Bytes,
}

/// The variant named by a configuration string, `None` for any string
/// outside the recognized set.
pub open spec fn size_from_str_spec(s: Seq<char>) -> Option<SizeFlag> {
    if s == "default"@ {
        Some(SizeFlag::Default)
    } else if s == "short"@ {
        Some(SizeFlag::Short)
    } else if s == "bytes"@ {
        Some(SizeFlag::Bytes)
    } else {
        None
    }
}

impl SizeFlag {
    /// Reads a variant from its configuration name; a string outside the
    /// recognized set is a recoverable mismatch and yields `None`.
    pub fn from_str(value: &str) -> (r: Option<Self>)
        ensures
            r == size_from_str_spec(value@),
    {
        if str_eq(value, "default") {
            Some(Self::Default)
        } else if str_eq(value, "short") {
            Some(Self::Short)
        } else if str_eq(value, "bytes") {
            Some(Self::Bytes)
        } else {
            None
        }
    }

    /// The argument layer: the value following the size flag.
    pub open spec fn from_args_spec(args: Args) -> Option<SizeFlag> {
        match args.size {
            Some(s) => size_from_str_spec(s@),
            None => None,
        }
    }

    /// A potential variant from the invocation arguments.
    pub fn from_arg_matches(args: &Args) -> (r: Option<Self>)
        ensures
            r == Self::from_args_spec(*args),
    {
        match &args.size {
            Some(s) => Self::from_str(s.as_str()),
            None => None,
        }
    }

    /// The document layer: the `size` field, where it names a variant.
    pub open spec fn from_config_spec(config: Config) -> Option<SizeFlag> {
        match config.size {
            Some(s) => size_from_str_spec(s@),
            None => None,
        }
    }

    /// A potential variant from a configuration document.
    pub fn from_config(config: &Config) -> (r: Option<Self>)
        ensures
            r == Self::from_config_spec(*config),
    {
        match &config.size {
            Some(s) => Self::from_str(s.as_str()),
            None => None,
        }
    }
}

impl Default for SizeFlag {
    /// Unconfigured listings use the human-readable default format.
    fn default() -> (r: Self)
        ensures
            r == SizeFlag::Default,
    {
        Self::Default
    }
}

} // verus!
