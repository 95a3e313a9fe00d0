//! The flag saying whether directories are grouped together and where.

use crate::config_file::Config;
use crate::flags::Args;
use crate::text::str_eq;
use vstd::prelude::*;

verus! {

/// Where directories stand relative to files in a sorted listing.
#[derive(Clone, Copy, Debug, PartialEq, Eq, Structural)]
pub enum DirGrouping {
    First,
    Last,
    NoGrouping,
}

/// The variant named by a configuration string, `None` for any string
/// outside the recognized set.
pub open spec fn dir_grouping_from_str_spec(s: Seq<char>) -> Option<DirGrouping> {
    if s == "first"@ {
        Some(DirGrouping::First)
    } else if s == "last"@ {
        Some(DirGrouping::Last)
    } else if s == "none"@ {
        Some(DirGrouping::NoGrouping)
    } else {
        None
    }
}

impl DirGrouping {
    /// Reads a variant from its configuration name; a string outside the
    /// recognized set is a recoverable mismatch and yields `None`.
    pub fn from_str(value: &str) -> (r: Option<Self>)
        ensures
            r == dir_grouping_from_str_spec(value@),
    {
        if str_eq(value, "first") {
            Some(Self::First)
        } else if str_eq(value, "last") {
            Some(Self::Last)
        } else if str_eq(value, "none") {
            Some(Self::NoGrouping)
        } else {
            None
        }
    }

    /// The argument layer: the value following the group-dirs flag.
    pub open spec fn from_args_spec(args: Args) -> Option<DirGrouping> {
        match args.group_dirs {
            Some(s) => dir_grouping_from_str_spec(s@),
            None => None,
        }
    }

    /// A potential variant from the invocation arguments.
    pub fn from_arg_matches(args: &Args) -> (r: Option<Self>)
        ensures
            r == Self::from_args_spec(*args),
    {
        match &args.group_dirs {
            Some(s) => Self::from_str(s.as_str()),
            None => None,
        }
    }

    /// The document layer: the `sorting.dir-grouping` field, where it names
    /// a variant.
    pub open spec fn from_config_spec(config: Config) -> Option<DirGrouping> {
        match config.sorting {
            Some(section) => match section.dir_grouping {
                Some(s) => dir_grouping_from_str_spec(s@),
                None => None,
            },
            None => None,
        }
    }

    /// A potential variant from a configuration document.
    pub fn from_config(config: &Config) -> (r: Option<Self>)
        ensures
            r == Self::from_config_spec(*config),
    {
        match &config.sorting {
            Some(section) => match &section.dir_grouping {
                Some(s) => Self::from_str(s.as_str()),
                None => None,
            },
            None => None,
        }
    }
}

impl Default for DirGrouping {
    /// Unconfigured listings do not group directories.
    fn default() -> (r: Self)
        ensures
            r == DirGrouping::NoGrouping,
    {
        Self::NoGrouping
    }
}

/// What listings are sorted by.
#[derive(Clone, Copy, Debug, PartialEq, Eq, Structural)]
pub enum SortColumn {
    Extension,
    Name,
    Time,
    Size,
    Version,
}

/// The variant named by a configuration string, `None` for any string
/// outside the recognized set.
pub open spec fn sort_column_from_str_spec(s: Seq<char>) -> Option<SortColumn> {
    if s == "extension"@ {
        Some(SortColumn::Extension)
    } else if s == "name"@ {
        Some(SortColumn::Name)
    } else if s == "time"@ {
        Some(SortColumn::Time)
    } else if s == "size"@ {
        Some(SortColumn::Size)
    } else if s == "version"@ {
        Some(SortColumn::Version)
    } else {
        None
    }
}

impl SortColumn {
    /// Reads a variant from its configuration name; a string outside the
    /// recognized set is a recoverable mismatch and yields `None`.
    pub fn from_str(value: &str) -> (r: Option<Self>)
        ensures
            r == sort_column_from_str_spec(value@),
    {
        if str_eq(value, "extension") {
            Some(Self::Extension)
        } else if str_eq(value, "name") {
            Some(Self::Name)
        } else if str_eq(value, "time") {
            Some(Self::Time)
        } else if str_eq(value, "size") {
            Some(Self::Size)
        } else if str_eq(value, "version") {
            Some(Self::Version)
        } else {
            None
        }
    }

    /// The argument layer: the value following the sort flag.
    pub open spec fn from_args_spec(args: Args) -> Option<SortColumn> {
        match args.sort {
            Some(s) => sort_column_from_str_spec(s@),
            None => None,
        }
    }

    /// A potential variant from the invocation arguments.
    pub fn from_arg_matches(args: &Args) -> (r: Option<Self>)
        ensures
            r == Self::from_args_spec(*args),
    {
        match &args.sort {
            Some(s) => Self::from_str(s.as_str()),
            None => None,
        }
    }

    /// The document layer: the `sorting.column` field, where it names a
    /// variant.
    pub open spec fn from_config_spec(config: Config) -> Option<SortColumn> {
        match config.sorting {
            Some(section) => match section.column {
                Some(s) => sort_column_from_str_spec(s@),
                None => None,
            },
            None => None,
        }
    }

    /// A potential variant from a configuration document.
    pub fn from_config(config: &Config) -> (r: Option<Self>)
        ensures
            r == Self::from_config_spec(*config),
    {
        match &config.sorting {
            Some(section) => match &section.column {
                Some(s) => Self::from_str(s.as_str()),
                None => None,
            },
            None => None,
        }
    }
}

impl Default for SortColumn {
    /// Unconfigured listings sort by name.
    fn default() -> (r: Self)
        ensures
            r == SortColumn::Name,
    {
        Self::Name
    }
}

} // verus!
