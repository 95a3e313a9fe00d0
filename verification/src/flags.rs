//! The per-option resolvers and the resolution merger.
//!
//! Every tunable option implements the same three-method contract — a value
//! from the invocation arguments, a value from the configuration document,
//! and a hard-coded default — and the merger composes the three in strict
//! precedence order: an explicit argument always wins, then the document,
//! then the default. Classic mode runs before the merge and forces a few
//! options at the document layer, so an explicit argument still overrides it.

use crate::config_file::Config;
use crate::flags::color::ColorOption;
use crate::flags::date::DateFlag;
use crate::flags::display::Display;
use crate::flags::icons::IconOption;
use crate::flags::icons::IconTheme;
use crate::flags::layout::Layout;
use crate::flags::size::SizeFlag;
use crate::flags::sorting::DirGrouping;
use crate::flags::sorting::SortColumn;
use crate::flags::theme::ColorTheme;
use crate::text::view_strings;
use vstd::prelude::*;

pub mod color;
pub mod date;
pub mod display;
pub mod icons;
pub mod layout;
pub mod size;
pub mod sorting;
pub mod theme;

verus! {

/// The invocation-argument surface that the resolvers consult: one field per
/// recognized flag, already split off from the argument grammar.
#[derive(Clone, Debug)]
pub struct Args {
    pub all: bool,
    pub almost_all: bool,
    pub directory_only: bool,
    pub classic: bool,
    pub tree: bool,
    pub oneline: bool,
    pub recursive: bool,
    pub dereference: bool,
    pub indicators: bool,
    pub no_symlink: bool,
    pub total_size: bool,
    pub reverse: bool,
    pub color: Option<String>,
    pub icon: Option<String>,
    pub icon_theme: Option<String>,
    pub color_theme: Option<String>,
    pub date: Option<String>,
    pub group_dirs: Option<String>,
    pub sort: Option<String>,
    pub size: Option<String>,
    pub depth: Option<usize>,
}

impl Args {
    /// An invocation that passes no recognized flag.
    pub fn with_none() -> (r: Self)
        ensures
            !r.all,
            !r.almost_all,
            !r.directory_only,
            !r.classic,
            !r.tree,
            !r.oneline,
            !r.recursive,
            !r.dereference,
            !r.indicators,
            !r.no_symlink,
            !r.total_size,
            !r.reverse,
            r.color is None,
            r.icon is None,
            r.icon_theme is None,
            r.color_theme is None,
            r.date is None,
            r.group_dirs is None,
            r.sort is None,
            r.size is None,
            r.depth is None,
    {
        Self {
            all: false,
            almost_all: false,
            directory_only: false,
            classic: false,
            tree: false,
            oneline: false,
            recursive: false,
            dereference: false,
            indicators: false,
            no_symlink: false,
            total_size: false,
            reverse: false,
            color: None,
            icon: None,
            icon_theme: None,
            color_theme: None,
            date: None,
            group_dirs: None,
            sort: None,
            size: None,
            depth: None,
        }
    }
}

/// The three-layer merge for one option: the argument value where present,
/// else the document value, else the default.
pub open spec fn resolve_spec<T>(arg: Option<T>, doc: Option<T>, def: T) -> T {
    match arg {
        Some(a) => a,
        None => match doc {
            Some(d) => d,
            None => def,
        },
    }
}

/// A boolean presence flag at the argument layer.
fn flag_arg(present: bool) -> (r: Option<bool>)
    ensures
        r == flag_arg_spec(present),
{
    if present {
        Some(true)
    } else {
        None
    }
}

/// A copy of a list of strings, character for character.
fn clone_strings(v: &Vec<String>) -> (r: Vec<String>)
    ensures
        r@.len() == v@.len(),
        forall|i: int| 0 <= i < v@.len() ==> r@[i]@ == v@[i]@,
{
    let mut out: Vec<String> = Vec::new();
    let mut i: usize = 0;
    while i < v.len()
        invariant
            i <= v.len(),
            out@.len() == i,
            forall|j: int| 0 <= j < i ==> out@[j]@ == v@[j]@,
        decreases v.len() - i,
    {
        out.push(v[i].clone());
        i = i + 1;
    }
    out
}

/// Runs one option through the precedence chain.
pub fn resolve<T>(arg: Option<T>, doc: Option<T>, def: T) -> (r: T)
    ensures
        r == resolve_spec(arg, doc, def),
{
    match arg {
        Some(a) => a,
        None => match doc {
            Some(d) => d,
            None => def,
        },
    }
}

/// The fields a document sets to a string that names no value of its
/// option, in reading order, appended to what was recorded before. Such a
/// field falls through to the next layer.
pub open spec fn unrecognized_from(base: Seq<Seq<char>>, c: Config) -> Seq<Seq<char>> {
    base + crate::config_file::mark_if(
        c.display matches Some(s) && display::display_from_str_spec(s@) is None,
        "display"@,
    ) + crate::config_file::mark_if(
        (match c.color {
            Some(section) => section.when matches Some(s) && color::color_from_str_spec(s@) is None,
            None => false,
        }),
        "color.when"@,
    ) + crate::config_file::mark_if(
        (match c.icons {
            Some(section) => section.when matches Some(s) && icons::icon_option_from_str_spec(s@)
                is None,
            None => false,
        }),
        "icons.when"@,
    ) + crate::config_file::mark_if(
        (match c.icons {
            Some(section) => section.theme matches Some(s) && icons::icon_theme_from_str_spec(s@)
                is None,
            None => false,
        }),
        "icons.theme"@,
    ) + crate::config_file::mark_if(
        c.date matches Some(s) && date::date_str_invalid(s@),
        "date"@,
    ) + crate::config_file::mark_if(
        c.layout matches Some(s) && layout::layout_from_str_spec(s@) is None,
        "layout"@,
    ) + crate::config_file::mark_if(
        c.size matches Some(s) && size::size_from_str_spec(s@) is None,
        "size"@,
    ) + crate::config_file::mark_if(
        (match c.sorting {
            Some(section) => section.column matches Some(s) && sorting::sort_column_from_str_spec(
                s@,
            ) is None,
            None => false,
        }),
        "sorting.column"@,
    ) + crate::config_file::mark_if(
        (match c.sorting {
            Some(section) => section.dir_grouping matches Some(s)
                && sorting::dir_grouping_from_str_spec(s@) is None,
            None => false,
        }),
        "sorting.dir-grouping"@,
    )
}

/// The fields a document sets to a string that names no value of its
/// option, in reading order.
pub open spec fn unrecognized_of(c: Config) -> Seq<Seq<char>> {
    unrecognized_from(Seq::empty(), c)
}

/// Records one field under its label where its string names no value.
fn note_unrecognized(found: &mut Vec<String>, bad: bool, label: &str)
    ensures
        view_strings(final(found)@) == view_strings(old(found)@) + crate::config_file::mark_if(
            bad,
            label@,
        ),
{
    if bad {
        found.push(String::from_str(label));
    }
    proof {
        assert(view_strings(found@) =~= view_strings(old(found)@) + crate::config_file::mark_if(
            bad,
            label@,
        ));
    }
}

/// Names, in reading order, each field the document sets to a string that
/// names no value of its option: recognized keys whose value the resolvers
/// treat as absent. A caller reports them once; the merge is unaffected.
pub fn unrecognized_config_values(config: &Config) -> (r: Vec<String>)
    ensures
        view_strings(r@) == unrecognized_of(*config),
{
    let mut found: Vec<String> = Vec::new();
    proof {
        assert(view_strings(found@) =~= Seq::<Seq<char>>::empty());
    }
    let bad_display = match &config.display {
        Some(s) => Display::from_str(s.as_str()).is_none(),
        None => false,
    };
    note_unrecognized(&mut found, bad_display, "display");
    let bad_color_when = match &config.color {
        Some(section) => match &section.when {
            Some(s) => ColorOption::from_str(s.as_str()).is_none(),
            None => false,
        },
        None => false,
    };
    note_unrecognized(&mut found, bad_color_when, "color.when");
    let bad_icon_when = match &config.icons {
        Some(section) => match &section.when {
            Some(s) => IconOption::from_str(s.as_str()).is_none(),
            None => false,
        },
        None => false,
    };
    note_unrecognized(&mut found, bad_icon_when, "icons.when");
    let bad_icon_theme = match &config.icons {
        Some(section) => match &section.theme {
            Some(s) => IconTheme::from_str(s.as_str()).is_none(),
            None => false,
        },
        None => false,
    };
    note_unrecognized(&mut found, bad_icon_theme, "icons.theme");
    let bad_date = match &config.date {
        Some(s) => DateFlag::from_str(s.as_str()).is_none(),
        None => false,
    };
    note_unrecognized(&mut found, bad_date, "date");
    let bad_layout = match &config.layout {
        Some(s) => Layout::from_str(s.as_str()).is_none(),
        None => false,
    };
    note_unrecognized(&mut found, bad_layout, "layout");
    let bad_size = match &config.size {
        Some(s) => SizeFlag::from_str(s.as_str()).is_none(),
        None => false,
    };
    note_unrecognized(&mut found, bad_size, "size");
    let bad_column = match &config.sorting {
        Some(section) => match &section.column {
            Some(s) => SortColumn::from_str(s.as_str()).is_none(),
            None => false,
        },
        None => false,
    };
    note_unrecognized(&mut found, bad_column, "sorting.column");
    let bad_grouping = match &config.sorting {
        Some(section) => match &section.dir_grouping {
            Some(s) => DirGrouping::from_str(s.as_str()).is_none(),
            None => false,
        },
        None => false,
    };
    note_unrecognized(&mut found, bad_grouping, "sorting.dir-grouping");
    found
}

/// Law: an explicitly supplied argument always wins. For every option, a
/// document setting it to one value and an argument setting it to a
/// different one resolve to the argument's value.
pub proof fn lemma_argument_wins<T>(arg: T, doc: T, def: T)
    requires
        arg != doc,
    ensures
        resolve_spec(Some(arg), Some(doc), def) == arg,
{
}

/// Law: with no argument present, a present document value is the resolved
/// value, for every option.
pub proof fn lemma_document_wins_when_no_argument<T>(doc: T, def: T)
    ensures
        resolve_spec(None::<T>, Some(doc), def) == doc,
{
}

/// Law: an option configured nowhere resolves to its hard-coded default,
/// for every option.
pub proof fn lemma_default_when_unconfigured<T>(def: T)
    ensures
        resolve_spec(None::<T>, None::<T>, def) == def,
{
}

/// A boolean presence flag at the argument layer: it contributes `true`
/// when passed and nothing otherwise.
pub open spec fn flag_arg_spec(present: bool) -> Option<bool> {
    if present {
        Some(true)
    } else {
        None
    }
}

/// Classic mode at the argument layer.
pub open spec fn classic_from_args_spec(args: Args) -> Option<bool> {
    flag_arg_spec(args.classic)
}

/// Whether classic mode is active: its own value runs through the same
/// three layers, with default `false`.
pub open spec fn classic_active_spec(args: Args, config: Config) -> bool {
    resolve_spec(classic_from_args_spec(args), config.classic, false)
}

/// The document layer for `color.when`: classic mode forces `never` there.
pub open spec fn color_doc_spec(args: Args, config: Config) -> Option<ColorOption> {
    if classic_active_spec(args, config) {
        Some(ColorOption::Never)
    } else {
        ColorOption::from_config_spec(config)
    }
}

/// The resolved `color.when` value.
pub open spec fn color_when_spec(args: Args, config: Config) -> ColorOption {
    resolve_spec(ColorOption::from_args_spec(args), color_doc_spec(args, config), ColorOption::Auto)
}

/// The document layer for `icons.when`: classic mode forces `never` there.
pub open spec fn icon_when_doc_spec(args: Args, config: Config) -> Option<IconOption> {
    if classic_active_spec(args, config) {
        Some(IconOption::Never)
    } else {
        IconOption::from_config_spec(config)
    }
}

/// The resolved `icons.when` value.
pub open spec fn icon_when_spec(args: Args, config: Config) -> IconOption {
    resolve_spec(IconOption::from_args_spec(args), icon_when_doc_spec(args, config), IconOption::Auto)
}

/// The resolved `icons.theme` value; classic mode does not touch it.
pub open spec fn icon_theme_spec(args: Args, config: Config) -> IconTheme {
    resolve_spec(IconTheme::from_args_spec(args), IconTheme::from_config_spec(config), IconTheme::Fancy)
}

/// The document layer for `sorting.dir-grouping`: classic mode forces
/// `none` there.
pub open spec fn dir_grouping_doc_spec(args: Args, config: Config) -> Option<DirGrouping> {
    if classic_active_spec(args, config) {
        Some(DirGrouping::NoGrouping)
    } else {
        DirGrouping::from_config_spec(config)
    }
}

/// The resolved `sorting.dir-grouping` value.
pub open spec fn dir_grouping_spec(args: Args, config: Config) -> DirGrouping {
    resolve_spec(
        DirGrouping::from_args_spec(args),
        dir_grouping_doc_spec(args, config),
        DirGrouping::NoGrouping,
    )
}

/// The resolved `display` value.
pub open spec fn display_spec(args: Args, config: Config) -> Display {
    resolve_spec(
        Display::from_args_spec(args),
        Display::from_config_spec(config),
        Display::DisplayOnlyVisible,
    )
}

/// What the resolved date format must be: the argument's parse where the
/// argument is present and valid, else the document layer (which classic
/// mode forces to the plain date format), else the default.
pub open spec fn date_resolved_matches(args: Args, config: Config, r: DateFlag) -> bool {
    match args.date {
        Some(s) => if date::date_str_invalid(s@) {
            date_doc_level_matches(args, config, r)
        } else {
            date::date_from_str_matches(s@, Some(r))
        },
        None => date_doc_level_matches(args, config, r),
    }
}

/// The document-then-default layers for the date format.
pub open spec fn date_doc_level_matches(args: Args, config: Config, r: DateFlag) -> bool {
    if classic_active_spec(args, config) {
        r == DateFlag::Date
    } else {
        match config.date {
            Some(s) => if date::date_str_invalid(s@) {
                r == DateFlag::Date
            } else {
                date::date_from_str_matches(s@, Some(r))
            },
            None => r == DateFlag::Date,
        }
    }
}

/// The resolved `layout` value.
pub open spec fn layout_spec(args: Args, config: Config) -> Layout {
    resolve_spec(Layout::from_args_spec(args), Layout::from_config_spec(config), Layout::Grid)
}

/// The resolved `size` value.
pub open spec fn size_spec(args: Args, config: Config) -> SizeFlag {
    resolve_spec(SizeFlag::from_args_spec(args), SizeFlag::from_config_spec(config), SizeFlag::Default)
}

/// The resolved `sorting.column` value.
pub open spec fn sort_column_spec(args: Args, config: Config) -> SortColumn {
    resolve_spec(
        SortColumn::from_args_spec(args),
        SortColumn::from_config_spec(config),
        SortColumn::Name,
    )
}

/// The resolved `sorting.reverse` value.
pub open spec fn sort_reverse_spec(args: Args, config: Config) -> bool {
    resolve_spec(
        flag_arg_spec(args.reverse),
        match config.sorting {
            Some(section) => section.reverse,
            None => None,
        },
        false,
    )
}

/// The resolved `dereference` value.
pub open spec fn dereference_spec(args: Args, config: Config) -> bool {
    resolve_spec(flag_arg_spec(args.dereference), config.dereference, false)
}

/// The resolved `indicators` value.
pub open spec fn indicators_spec(args: Args, config: Config) -> bool {
    resolve_spec(flag_arg_spec(args.indicators), config.indicators, false)
}

/// The resolved `no-symlink` value.
pub open spec fn no_symlink_spec(args: Args, config: Config) -> bool {
    resolve_spec(flag_arg_spec(args.no_symlink), config.no_symlink, false)
}

/// The resolved `total-size` value.
pub open spec fn total_size_spec(args: Args, config: Config) -> bool {
    resolve_spec(flag_arg_spec(args.total_size), config.total_size, false)
}

/// The resolved `recursion.enabled` value.
pub open spec fn recursion_enabled_spec(args: Args, config: Config) -> bool {
    resolve_spec(
        flag_arg_spec(args.recursive),
        match config.recursion {
            Some(section) => section.enabled,
            None => None,
        },
        false,
    )
}

/// The resolved `recursion.depth` value; absent means unbounded.
pub open spec fn recursion_depth_spec(args: Args, config: Config) -> Option<usize> {
    match args.depth {
        Some(d) => Some(d),
        None => match config.recursion {
            Some(section) => section.depth,
            None => None,
        },
    }
}

/// What the resolved symlink arrow must be: the document's string where
/// present, else the built-in arrow.
pub open spec fn symlink_arrow_matches(config: Config, r: String) -> bool {
    match config.symlink_arrow {
        Some(a) => r@ == a@,
        None => r@ == "\u{21d2}"@,
    }
}

/// What the resolved column list must be: the document's list where
/// present, else the built-in column order.
pub open spec fn blocks_matches(config: Config, r: Vec<String>) -> bool {
    match config.blocks {
        Some(b) => view_strings(r@) == view_strings(b@),
        None => view_strings(r@) == seq![
            "permission"@,
            "user"@,
            "group"@,
            "size"@,
            "date"@,
            "name"@,
        ],
    }
}

/// What the resolved ignore list must be: the document's globs where
/// present, else nothing ignored.
pub open spec fn ignore_globs_matches(config: Config, r: Vec<String>) -> bool {
    match config.ignore_globs {
        Some(g) => view_strings(r@) == view_strings(g@),
        None => r@.len() == 0,
    }
}

/// What the resolved color-theme path must be: the argument's path where
/// present, else the document's, else the built-in file name.
pub open spec fn color_theme_resolved_matches(args: Args, config: Config, r: ColorTheme) -> bool {
    match args.color_theme {
        Some(p) => r.path@ == p@,
        None => match config.color {
            Some(c) => match c.theme {
                Some(p) => r.path@ == p@,
                None => r.path@ == "theme.yaml"@,
            },
            None => r.path@ == "theme.yaml"@,
        },
    }
}

/// The effective configuration: one resolved value per option, fully
/// populated after resolution.
#[derive(Clone, Debug)]
pub struct Flags {
    pub display: Display,
    pub color_when: ColorOption,
    pub icon_when: IconOption,
    pub icon_theme: IconTheme,
    pub date: DateFlag,
    pub dir_grouping: DirGrouping,
    pub color_theme: ColorTheme,
    pub layout: Layout,
    pub size: SizeFlag,
    pub sort_column: SortColumn,
    pub sort_reverse: bool,
    pub dereference: bool,
    pub indicators: bool,
    pub no_symlink: bool,
    pub total_size: bool,
    pub recursion_enabled: bool,
    pub recursion_depth: Option<usize>,
    pub symlink_arrow: String,
    pub blocks: Vec<String>,
    pub ignore_globs: Vec<String>,
}

impl Flags {
    /// The resolution merger: drives every option through the precedence
    /// chain, after the classic-mode pre-step, and returns the one
    /// fully-populated effective configuration.
    pub fn configure_from(args: &Args, config: &Config) -> (r: Flags)
        ensures
            r.display == display_spec(*args, *config),
            r.color_when == color_when_spec(*args, *config),
            r.icon_when == icon_when_spec(*args, *config),
            r.icon_theme == icon_theme_spec(*args, *config),
            date_resolved_matches(*args, *config, r.date),
            r.dir_grouping == dir_grouping_spec(*args, *config),
            color_theme_resolved_matches(*args, *config, r.color_theme),
            r.layout == layout_spec(*args, *config),
            r.size == size_spec(*args, *config),
            r.sort_column == sort_column_spec(*args, *config),
            r.sort_reverse == sort_reverse_spec(*args, *config),
            r.dereference == dereference_spec(*args, *config),
            r.indicators == indicators_spec(*args, *config),
            r.no_symlink == no_symlink_spec(*args, *config),
            r.total_size == total_size_spec(*args, *config),
            r.recursion_enabled == recursion_enabled_spec(*args, *config),
            r.recursion_depth == recursion_depth_spec(*args, *config),
            symlink_arrow_matches(*config, r.symlink_arrow),
            blocks_matches(*config, r.blocks),
            ignore_globs_matches(*config, r.ignore_globs),
    {
        let classic = resolve(flag_arg(args.classic), config.classic, false);
        let color_doc = if classic {
            Some(ColorOption::Never)
        } else {
            ColorOption::from_config(config)
        };
        let icon_doc = if classic {
            Some(IconOption::Never)
        } else {
            IconOption::from_config(config)
        };
        let grouping_doc = if classic {
            Some(DirGrouping::NoGrouping)
        } else {
            DirGrouping::from_config(config)
        };
        Flags {
            display: resolve(
                Display::from_arg_matches(args),
                Display::from_config(config),
                Display::DisplayOnlyVisible,
            ),
            color_when: resolve(ColorOption::from_arg_matches(args), color_doc, ColorOption::Auto),
            icon_when: resolve(IconOption::from_arg_matches(args), icon_doc, IconOption::Auto),
            icon_theme: resolve(
                IconTheme::from_arg_matches(args),
                IconTheme::from_config(config),
                IconTheme::Fancy,
            ),
            date: Self::resolve_date(args, config, classic),
            dir_grouping: resolve(
                DirGrouping::from_arg_matches(args),
                grouping_doc,
                DirGrouping::NoGrouping,
            ),
            color_theme: Self::resolve_color_theme(args, config),
            layout: resolve(Layout::from_arg_matches(args), Layout::from_config(config), Layout::Grid),
            size: resolve(
                SizeFlag::from_arg_matches(args),
                SizeFlag::from_config(config),
                SizeFlag::Default,
            ),
            sort_column: resolve(
                SortColumn::from_arg_matches(args),
                SortColumn::from_config(config),
                SortColumn::Name,
            ),
            sort_reverse: resolve(
                flag_arg(args.reverse),
                match &config.sorting {
                    Some(section) => section.reverse,
                    None => None,
                },
                false,
            ),
            dereference: resolve(flag_arg(args.dereference), config.dereference, false),
            indicators: resolve(flag_arg(args.indicators), config.indicators, false),
            no_symlink: resolve(flag_arg(args.no_symlink), config.no_symlink, false),
            total_size: resolve(flag_arg(args.total_size), config.total_size, false),
            recursion_enabled: resolve(
                flag_arg(args.recursive),
                match &config.recursion {
                    Some(section) => section.enabled,
                    None => None,
                },
                false,
            ),
            recursion_depth: match args.depth {
                Some(d) => Some(d),
                None => match &config.recursion {
                    Some(section) => section.depth,
                    None => None,
                },
            },
            symlink_arrow: match &config.symlink_arrow {
                Some(a) => a.clone(),
                None => String::from_str("\u{21d2}"),
            },
            blocks: Self::resolve_blocks(config),
            ignore_globs: Self::resolve_ignore_globs(config),
        }
    }

    /// The glob list from the document, or nothing ignored.
    fn resolve_ignore_globs(config: &Config) -> (r: Vec<String>)
        ensures
            ignore_globs_matches(*config, r),
    {
        match &config.ignore_globs {
            Some(globs) => {
                let r = clone_strings(globs);
                proof {
                    assert(view_strings(r@) =~= view_strings(globs@));
                }
                r
            },
            None => Vec::new(),
        }
    }

    /// The column list from the document or the built-in order.
    fn resolve_blocks(config: &Config) -> (r: Vec<String>)
        ensures
            blocks_matches(*config, r),
    {
        match &config.blocks {
            Some(b) => {
                let r = clone_strings(b);
                proof {
                    assert(view_strings(r@) =~= view_strings(b@));
                }
                r
            },
            None => {
                let mut r: Vec<String> = Vec::new();
                r.push(String::from_str("permission"));
                r.push(String::from_str("user"));
                r.push(String::from_str("group"));
                r.push(String::from_str("size"));
                r.push(String::from_str("date"));
                r.push(String::from_str("name"));
                proof {
                    assert(view_strings(r@) =~= seq![
                        "permission"@,
                        "user"@,
                        "group"@,
                        "size"@,
                        "date"@,
                        "name"@,
                    ]);
                }
                r
            },
        }
    }

    /// The date format through the three layers.
    fn resolve_date(args: &Args, config: &Config, classic: bool) -> (r: DateFlag)
        requires
            classic == classic_active_spec(*args, *config),
        ensures
            date_resolved_matches(*args, *config, r),
    {
        match &args.date {
            Some(s) => match DateFlag::from_str(s.as_str()) {
                Some(v) => v,
                None => Self::resolve_date_doc(args, config, classic),
            },
            None => Self::resolve_date_doc(args, config, classic),
        }
    }

    /// The date format from the document and default layers alone.
    fn resolve_date_doc(args: &Args, config: &Config, classic: bool) -> (r: DateFlag)
        requires
            classic == classic_active_spec(*args, *config),
        ensures
            date_doc_level_matches(*args, *config, r),
    {
        if classic {
            DateFlag::Date
        } else {
            match &config.date {
                Some(s) => match DateFlag::from_str(s.as_str()) {
                    Some(v) => v,
                    None => DateFlag::Date,
                },
                None => DateFlag::Date,
            }
        }
    }

    /// The color-theme path through the three layers.
    fn resolve_color_theme(args: &Args, config: &Config) -> (r: ColorTheme)
        ensures
            color_theme_resolved_matches(*args, *config, r),
    {
        match ColorTheme::from_arg_matches(args) {
            Some(t) => t,
            None => match ColorTheme::from_config(config) {
                Some(t) => t,
                None => ColorTheme::default(),
            },
        }
    }
}

/// Law: with classic mode active and no explicit argument for them,
/// `color.when` resolves to `never` and `sorting.dir-grouping` to `none`.
pub proof fn lemma_classic_forces(args: Args, config: Config)
    requires
        classic_active_spec(args, config),
        ColorOption::from_args_spec(args) is None,
        DirGrouping::from_args_spec(args) is None,
    ensures
        color_when_spec(args, config) == ColorOption::Never,
        dir_grouping_spec(args, config) == DirGrouping::NoGrouping,
{
}

/// Law: a parsed document that sets `classic` to true forces `color.when`
/// to `never` and `sorting.dir-grouping` to `none`, for every record read
/// off that document, where no explicit argument stands in the way.
pub proof fn lemma_classic_from_document(m: crate::yaml::YamlModel, config: Config, args: Args)
    requires
        crate::config_file::config_matches(m, config),
        crate::config_file::spec_bool_field(m, "classic"@) == Some(true),
        ColorOption::from_args_spec(args) is None,
        DirGrouping::from_args_spec(args) is None,
    ensures
        color_when_spec(args, config) == ColorOption::Never,
        dir_grouping_spec(args, config) == DirGrouping::NoGrouping,
{
    lemma_classic_forces(args, config);
}

/// Law: an explicit color argument still overrides classic mode.
pub proof fn lemma_argument_overrides_classic(args: Args, config: Config, when: ColorOption)
    requires
        ColorOption::from_args_spec(args) == Some(when),
    ensures
        color_when_spec(args, config) == when,
{
}

} // verus!
