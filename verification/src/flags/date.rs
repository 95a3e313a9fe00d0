//! The flag saying how dates are formatted.

use crate::config_file::Config;
use crate::flags::Args;
use crate::text::str_eq;
use vstd::prelude::*;

verus! {

/// How the date column is rendered: the plain date, a relative form, or a
/// free-form format string introduced by `+`.
#[derive(Clone, Debug, PartialEq, Eq)]
pub enum DateFlag {
    Date,
    Relative,
    Formatted(String),
}

/// Whether a configuration string names no date format at all.
pub open spec fn date_str_invalid(s: Seq<char>) -> bool {
    s != "date"@ && s != "relative"@ && !(s.len() > 0 && s[0] == '+')
}

/// What reading a date format from a string must yield: the two named
/// forms, a `+`-introduced free format with the marker stripped, and
/// nothing for any other string.
pub open spec fn date_from_str_matches(s: Seq<char>, r: Option<DateFlag>) -> bool {
    if s == "date"@ {
        r == Some(DateFlag::Date)
    } else if s == "relative"@ {
        r == Some(DateFlag::Relative)
    } else if s.len() > 0 && s[0] == '+' {
        r matches Some(DateFlag::Formatted(fmt)) && fmt@ == s.skip(1)
    } else {
        r is None
    }
}

impl DateFlag {
    /// Reads a date format from its configuration string; a string outside
    /// the recognized forms is a recoverable mismatch and yields `None`.
    pub fn from_str(value: &str) -> (r: Option<Self>)
        ensures
            date_from_str_matches(value@, r),
    {
        if str_eq(value, "date") {
            Some(Self::Date)
        } else if str_eq(value, "relative") {
            Some(Self::Relative)
        } else {
            let n = value.unicode_len();
            if n > 0 && value.get_char(0) == '+' {
                let fmt = value.substring_char(1, n);
                proof {
                    assert(value@.skip(1) =~= value@.subrange(1, value@.len() as int));
                }
                Some(Self::Formatted(String::from_str(fmt)))
            } else {
                None
            }
        }
    }

    /// A potential date format from the invocation arguments.
    pub fn from_arg_matches(args: &Args) -> (r: Option<Self>)
        ensures
            match args.date {
                Some(s) => date_from_str_matches(s@, r),
                None => r is None,
            },
    {
        match &args.date {
            Some(s) => Self::from_str(s.as_str()),
            None => None,
        }
    }

    /// A potential date format from a configuration document.
    pub fn from_config(config: &Config) -> (r: Option<Self>)
        ensures
            match config.date {
                Some(s) => date_from_str_matches(s@, r),
                None => r is None,
            },
    {
        match &config.date {
            Some(s) => Self::from_str(s.as_str()),
            None => None,
        }
    }
}

impl Default for DateFlag {
    /// Unconfigured listings show the plain date.
    fn default() -> (r: Self)
        ensures
            r == DateFlag::Date,
    {
        Self::Date
    }
}

} // verus!
