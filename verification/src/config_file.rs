//! The raw configuration document: a partially-populated record parsed from
//! a persisted YAML file. Every field is optional; unknown keys are ignored.

use crate::text::view_strings;
use crate::yaml;
use crate::yaml::model_get;
use crate::yaml::parse_of;
use crate::yaml::untag_model;
use crate::yaml::yaml_model;
use crate::yaml::YamlModel;
use vstd::prelude::*;

verus! {

/// One persisted configuration document. Each field is `None` where the
/// document does not set the option (or sets it to an incompatible value,
/// which is treated as absent: a malformed field never aborts resolution).
#[derive(Clone, Debug)]
pub struct Config {
    pub classic: Option<bool>,
    pub blocks: Option<Vec<String>>,
    pub color: Option<Color>,
    pub date: Option<String>,
    pub dereference: Option<bool>,
    pub display: Option<String>,
    pub icons: Option<Icons>,
    pub ignore_globs: Option<Vec<String>>,
    pub indicators: Option<bool>,
    pub layout: Option<String>,
    pub recursion: Option<Recursion>,
    pub size: Option<String>,
    pub sorting: Option<Sorting>,
    pub no_symlink: Option<bool>,
    pub total_size: Option<bool>,
    pub symlink_arrow: Option<String>,
}

/// The `color` section of the document.
#[derive(Clone, Debug)]
pub struct Color {
    pub when: Option<String>,
    pub theme: Option<String>,
}

/// The `icons` section of the document.
#[derive(Clone, Debug)]
pub struct Icons {
    pub when: Option<String>,
    pub theme: Option<String>,
}

/// The `recursion` section of the document.
#[derive(Clone, Debug)]
pub struct Recursion {
    pub enabled: Option<bool>,
    pub depth: Option<usize>,
}

/// The `sorting` section of the document.
#[derive(Clone, Debug)]
pub struct Sorting {
    pub column: Option<String>,
    pub reverse: Option<bool>,
    pub dir_grouping: Option<String>,
}

impl Config {
    /// A document that sets nothing: every field is absent.
    pub fn with_none() -> (r: Self)
        ensures
            r.classic is None,
            r.blocks is None,
            r.color is None,
            r.date is None,
            r.dereference is None,
            r.display is None,
            r.icons is None,
            r.ignore_globs is None,
            r.indicators is None,
            r.layout is None,
            r.recursion is None,
            r.size is None,
            r.sorting is None,
            r.no_symlink is None,
            r.total_size is None,
            r.symlink_arrow is None,
    {
        Self {
            classic: None,
            blocks: None,
            color: None,
            date: None,
            dereference: None,
            display: None,
            icons: None,
            ignore_globs: None,
            indicators: None,
            layout: None,
            recursion: None,
            size: None,
            sorting: None,
            no_symlink: None,
            total_size: None,
            symlink_arrow: None,
        }
    }

    /// Parses a document. `None` exactly when the text is not structurally
    /// valid YAML; a field holding a value of the wrong type is treated as
    /// absent on its own, without discarding the rest of the document.
    pub fn with_yaml(yaml: &str) -> (r: Option<Self>)
        ensures
            (r is Some) == (parse_of(yaml@) is Some),
            r matches Some(c) ==> (parse_of(yaml@) matches Some(m) && config_matches(m, c)),
    {
        let (config, _) = Self::with_yaml_report(yaml);
        config
    }

    /// Parses a document and also names, in reading order, each field the
    /// document sets to a value of the wrong type, so that a caller can
    /// report them once. Such a field is absent in the record; it never
    /// discards the rest of the document.
    pub fn with_yaml_report(yaml: &str) -> (r: (Option<Self>, Vec<String>))
        ensures
            (r.0 is Some) == (parse_of(yaml@) is Some),
            r.0 matches Some(c) ==> (parse_of(yaml@) matches Some(m) && config_matches(m, c)),
            match parse_of(yaml@) {
                Some(m) => view_strings(r.1@) == config_mismatches(m),
                None => r.1@.len() == 0,
            },
    {
        let mut mismatched: Vec<String> = Vec::new();
        match yaml::parse_document(yaml) {
            Some(doc) => {
                proof {
                    assert(view_strings(mismatched@) =~= Seq::<Seq<char>>::empty());
                }
                let config = Self::from_tree(&doc, &mut mismatched);
                (Some(config), mismatched)
            },
            None => (None, mismatched),
        }
    }

    /// Maps the supported fields of a parsed tree into the record, field by
    /// field; a mistyped field becomes `None` and its key is recorded.
    #[verifier::rlimit(100)]
    fn from_tree(doc: &serde_yaml::Value, mismatched: &mut Vec<String>) -> (r: Self)
        ensures
            config_matches(yaml_model(*doc), r),
            view_strings(final(mismatched)@) == config_mismatches_from(
                view_strings(old(mismatched)@),
                yaml_model(*doc),
            ),
    {
        let color = color_section_of(doc, mismatched);
        let icons = icons_section_of(doc, mismatched);
        let recursion = recursion_section_of(doc, mismatched);
        let sorting = sorting_section_of(doc, mismatched);
        let classic = bool_field_report(doc, "classic", "classic", mismatched);
        let blocks = string_list_field(doc, "blocks", mismatched);
        let date = string_field_report(doc, "date", "date", mismatched);
        let dereference = bool_field_report(doc, "dereference", "dereference", mismatched);
        let display = string_field_report(doc, "display", "display", mismatched);
        let ignore_globs = string_list_field(doc, "ignore-globs", mismatched);
        let indicators = bool_field_report(doc, "indicators", "indicators", mismatched);
        let layout = string_field_report(doc, "layout", "layout", mismatched);
        let size = string_field_report(doc, "size", "size", mismatched);
        let no_symlink = bool_field_report(doc, "no-symlink", "no-symlink", mismatched);
        let total_size = bool_field_report(doc, "total-size", "total-size", mismatched);
        let symlink_arrow = string_field_report(doc, "symlink-arrow", "symlink-arrow", mismatched);
        Self {
            classic,
            blocks,
            color,
            date,
            dereference,
            display,
            icons,
            ignore_globs,
            indicators,
            layout,
            recursion,
            size,
            sorting,
            no_symlink,
            total_size,
            symlink_arrow,
        }
    }
}

/// The `color` section read off a document, with its mistyped keys
/// recorded.
fn color_section_of(doc: &serde_yaml::Value, mismatched: &mut Vec<String>) -> (r: Option<Color>)
    ensures
        (match spec_section(yaml_model(*doc), "color"@) {
            Some(sm) => r matches Some(section) && opt_str_matches(
                section.when,
                spec_string_field(sm, "when"@),
            ) && opt_str_matches(section.theme, spec_string_field(sm, "theme"@)),
            None => r is None,
        }),
        view_strings(final(mismatched)@) == view_strings(old(mismatched)@) + string_section_marks(
            yaml_model(*doc),
            "color"@,
            "color.when"@,
            "color.theme"@,
        ),
{
    match section_field(doc, "color", mismatched) {
        Some(section) => {
            let when = string_field_report(section, "when", "color.when", mismatched);
            let theme = string_field_report(section, "theme", "color.theme", mismatched);
            proof {
                assert(view_strings(mismatched@) =~= view_strings(old(mismatched)@)
                    + string_section_marks(yaml_model(*doc), "color"@, "color.when"@, "color.theme"@));
            }
            Some(Color { when, theme })
        },
        None => {
            proof {
                assert(view_strings(mismatched@) =~= view_strings(old(mismatched)@)
                    + string_section_marks(yaml_model(*doc), "color"@, "color.when"@, "color.theme"@));
            }
            None
        },
    }
}

/// The `icons` section read off a document, with its mistyped keys
/// recorded.
fn icons_section_of(doc: &serde_yaml::Value, mismatched: &mut Vec<String>) -> (r: Option<Icons>)
    ensures
        (match spec_section(yaml_model(*doc), "icons"@) {
            Some(sm) => r matches Some(section) && opt_str_matches(
                section.when,
                spec_string_field(sm, "when"@),
            ) && opt_str_matches(section.theme, spec_string_field(sm, "theme"@)),
            None => r is None,
        }),
        view_strings(final(mismatched)@) == view_strings(old(mismatched)@) + string_section_marks(
            yaml_model(*doc),
            "icons"@,
            "icons.when"@,
            "icons.theme"@,
        ),
{
    match section_field(doc, "icons", mismatched) {
        Some(section) => {
            let when = string_field_report(section, "when", "icons.when", mismatched);
            let theme = string_field_report(section, "theme", "icons.theme", mismatched);
            proof {
                assert(view_strings(mismatched@) =~= view_strings(old(mismatched)@)
                    + string_section_marks(yaml_model(*doc), "icons"@, "icons.when"@, "icons.theme"@));
            }
            Some(Icons { when, theme })
        },
        None => {
            proof {
                assert(view_strings(mismatched@) =~= view_strings(old(mismatched)@)
                    + string_section_marks(yaml_model(*doc), "icons"@, "icons.when"@, "icons.theme"@));
            }
            None
        },
    }
}

/// The `recursion` section read off a document, with its mistyped keys
/// recorded.
fn recursion_section_of(doc: &serde_yaml::Value, mismatched: &mut Vec<String>) -> (r: Option<
    Recursion,
>)
    ensures
        (match spec_section(yaml_model(*doc), "recursion"@) {
            Some(sm) => r matches Some(section) && section.enabled == spec_bool_field(
                sm,
                "enabled"@,
            ) && section.depth == spec_depth_field(sm, "depth"@),
            None => r is None,
        }),
        view_strings(final(mismatched)@) == view_strings(old(mismatched)@) + recursion_marks(
            yaml_model(*doc),
        ),
{
    match section_field(doc, "recursion", mismatched) {
        Some(section) => {
            let enabled = bool_field_report(section, "enabled", "recursion.enabled", mismatched);
            let depth = depth_field_report(section, "depth", "recursion.depth", mismatched);
            proof {
                assert(view_strings(mismatched@) =~= view_strings(old(mismatched)@)
                    + recursion_marks(yaml_model(*doc)));
            }
            Some(Recursion { enabled, depth })
        },
        None => {
            proof {
                assert(view_strings(mismatched@) =~= view_strings(old(mismatched)@)
                    + recursion_marks(yaml_model(*doc)));
            }
            None
        },
    }
}

/// The `sorting` section read off a document, with its mistyped keys
/// recorded.
fn sorting_section_of(doc: &serde_yaml::Value, mismatched: &mut Vec<String>) -> (r: Option<Sorting>)
    ensures
        (match spec_section(yaml_model(*doc), "sorting"@) {
            Some(sm) => r matches Some(section) && opt_str_matches(
                section.column,
                spec_string_field(sm, "column"@),
            ) && section.reverse == spec_bool_field(sm, "reverse"@) && opt_str_matches(
                section.dir_grouping,
                spec_string_field(sm, "dir-grouping"@),
            ),
            None => r is None,
        }),
        view_strings(final(mismatched)@) == view_strings(old(mismatched)@) + sorting_marks(
            yaml_model(*doc),
        ),
{
    match section_field(doc, "sorting", mismatched) {
        Some(section) => {
            let column = string_field_report(section, "column", "sorting.column", mismatched);
            let reverse = bool_field_report(section, "reverse", "sorting.reverse", mismatched);
            let dir_grouping = string_field_report(
                section,
                "dir-grouping",
                "sorting.dir-grouping",
                mismatched,
            );
            proof {
                assert(view_strings(mismatched@) =~= view_strings(old(mismatched)@)
                    + sorting_marks(yaml_model(*doc)));
            }
            Some(Sorting { column, reverse, dir_grouping })
        },
        None => {
            proof {
                assert(view_strings(mismatched@) =~= view_strings(old(mismatched)@)
                    + sorting_marks(yaml_model(*doc)));
            }
            None
        },
    }
}

/// The entry a key selects in a node's untagged mapping form.
pub open spec fn model_field(m: YamlModel, key: Seq<char>) -> Option<YamlModel> {
    match untag_model(m) {
        YamlModel::Mapping(entries) => model_get(entries, key),
        _ => None,
    }
}

/// Whether a document sets a field at all.
pub open spec fn field_present(m: YamlModel, key: Seq<char>) -> bool {
    model_field(m, key) is Some
}

/// The boolean a field holds, absent when missing or not a boolean.
pub open spec fn spec_bool_field(m: YamlModel, key: Seq<char>) -> Option<bool> {
    match model_field(m, key) {
        Some(f) => match untag_model(f) {
            YamlModel::Bool(b) => Some(b),
            _ => None,
        },
        None => None,
    }
}

/// The string a field holds, absent when missing or not a string.
pub open spec fn spec_string_field(m: YamlModel, key: Seq<char>) -> Option<Seq<char>> {
    match model_field(m, key) {
        Some(f) => match untag_model(f) {
            YamlModel::Str(s) => Some(s),
            _ => None,
        },
        None => None,
    }
}

/// The recursion depth a field holds: a positive integer that fits this
/// machine; absent when missing, anything else is a mismatch.
pub open spec fn spec_depth_field(m: YamlModel, key: Seq<char>) -> Option<usize> {
    match model_field(m, key) {
        Some(f) => match untag_model(f) {
            YamlModel::Number { as_unsigned } => match as_unsigned {
                Some(n) => if 1 <= n && n <= usize::MAX {
                    Some(n as usize)
                } else {
                    None
                },
                None => None,
            },
            _ => None,
        },
        None => None,
    }
}

/// A section's node, present only where the field holds a mapping.
pub open spec fn spec_section(m: YamlModel, key: Seq<char>) -> Option<YamlModel> {
    match model_field(m, key) {
        Some(f) => if untag_model(f) is Mapping {
            Some(f)
        } else {
            None
        },
        None => None,
    }
}

/// The string a model node holds, where it is one.
pub open spec fn str_of(m: YamlModel) -> Seq<char> {
    match m {
        YamlModel::Str(s) => s,
        _ => Seq::empty(),
    }
}

/// The strings a sequence field holds, absent when missing, not a
/// sequence, or holding any element that is not a string.
pub open spec fn spec_string_list(m: YamlModel, key: Seq<char>) -> Option<Seq<Seq<char>>> {
    match model_field(m, key) {
        Some(f) => match untag_model(f) {
            YamlModel::List(ms) => if forall|i: int|
                0 <= i < ms.len() ==> untag_model(#[trigger] ms[i]) is Str {
                Some(ms.map_values(|e: YamlModel| str_of(untag_model(e))))
            } else {
                None
            },
            _ => None,
        },
        None => None,
    }
}

/// One recorded key, where a present field is mistyped.
pub open spec fn mark_if(mismatch: bool, label: Seq<char>) -> Seq<Seq<char>> {
    if mismatch {
        seq![label]
    } else {
        Seq::empty()
    }
}

/// Whether an optional string of the record is exactly an optional string
/// of the model.
pub open spec fn opt_str_matches(c: Option<String>, m: Option<Seq<char>>) -> bool {
    match m {
        Some(s) => c matches Some(x) && x@ == s,
        None => c is None,
    }
}

/// Whether an optional string list of the record is exactly one of the
/// model.
pub open spec fn opt_list_matches(c: Option<Vec<String>>, m: Option<Seq<Seq<char>>>) -> bool {
    match m {
        Some(views) => c matches Some(v) && view_strings(v@) == views,
        None => c is None,
    }
}

/// Whether a record is exactly the reading of a parsed document: each
/// recognized field mapped, each mistyped or absent field `None`, unknown
/// keys ignored.
pub open spec fn config_matches(m: YamlModel, c: Config) -> bool {
    c.classic == spec_bool_field(m, "classic"@) && opt_list_matches(
        c.blocks,
        spec_string_list(m, "blocks"@),
    ) && (match spec_section(m, "color"@) {
        Some(sm) => c.color matches Some(section) && opt_str_matches(
            section.when,
            spec_string_field(sm, "when"@),
        ) && opt_str_matches(section.theme, spec_string_field(sm, "theme"@)),
        None => c.color is None,
    }) && opt_str_matches(c.date, spec_string_field(m, "date"@)) && c.dereference
        == spec_bool_field(m, "dereference"@) && opt_str_matches(
        c.display,
        spec_string_field(m, "display"@),
    ) && (match spec_section(m, "icons"@) {
        Some(sm) => c.icons matches Some(section) && opt_str_matches(
            section.when,
            spec_string_field(sm, "when"@),
        ) && opt_str_matches(section.theme, spec_string_field(sm, "theme"@)),
        None => c.icons is None,
    }) && opt_list_matches(c.ignore_globs, spec_string_list(m, "ignore-globs"@)) && c.indicators
        == spec_bool_field(m, "indicators"@) && opt_str_matches(
        c.layout,
        spec_string_field(m, "layout"@),
    ) && (match spec_section(m, "recursion"@) {
        Some(sm) => c.recursion matches Some(section) && section.enabled == spec_bool_field(
            sm,
            "enabled"@,
        ) && section.depth == spec_depth_field(sm, "depth"@),
        None => c.recursion is None,
    }) && opt_str_matches(c.size, spec_string_field(m, "size"@)) && (match spec_section(
        m,
        "sorting"@,
    ) {
        Some(sm) => c.sorting matches Some(section) && opt_str_matches(
            section.column,
            spec_string_field(sm, "column"@),
        ) && section.reverse == spec_bool_field(sm, "reverse"@) && opt_str_matches(
            section.dir_grouping,
            spec_string_field(sm, "dir-grouping"@),
        ),
        None => c.sorting is None,
    }) && c.no_symlink == spec_bool_field(m, "no-symlink"@) && c.total_size == spec_bool_field(
        m,
        "total-size"@,
    ) && opt_str_matches(c.symlink_arrow, spec_string_field(m, "symlink-arrow"@))
}

/// The mistyped keys of one section: the section's own key where it is
/// present but no mapping, else its mistyped subfields in reading order.
pub open spec fn string_section_marks(
    m: YamlModel,
    key: Seq<char>,
    when_label: Seq<char>,
    theme_label: Seq<char>,
) -> Seq<Seq<char>> {
    mark_if(field_present(m, key) && spec_section(m, key) is None, key) + (match spec_section(
        m,
        key,
    ) {
        Some(sm) => mark_if(
            field_present(sm, "when"@) && spec_string_field(sm, "when"@) is None,
            when_label,
        ) + mark_if(
            field_present(sm, "theme"@) && spec_string_field(sm, "theme"@) is None,
            theme_label,
        ),
        None => Seq::empty(),
    })
}

/// The mistyped keys of the recursion section, in reading order.
pub open spec fn recursion_marks(m: YamlModel) -> Seq<Seq<char>> {
    mark_if(field_present(m, "recursion"@) && spec_section(m, "recursion"@) is None, "recursion"@)
        + (match spec_section(m, "recursion"@) {
        Some(sm) => mark_if(
            field_present(sm, "enabled"@) && spec_bool_field(sm, "enabled"@) is None,
            "recursion.enabled"@,
        ) + mark_if(
            field_present(sm, "depth"@) && spec_depth_field(sm, "depth"@) is None,
            "recursion.depth"@,
        ),
        None => Seq::empty(),
    })
}

/// The mistyped keys of the sorting section, in reading order.
pub open spec fn sorting_marks(m: YamlModel) -> Seq<Seq<char>> {
    mark_if(field_present(m, "sorting"@) && spec_section(m, "sorting"@) is None, "sorting"@) + (
    match spec_section(m, "sorting"@) {
        Some(sm) => mark_if(
            field_present(sm, "column"@) && spec_string_field(sm, "column"@) is None,
            "sorting.column"@,
        ) + mark_if(
            field_present(sm, "reverse"@) && spec_bool_field(sm, "reverse"@) is None,
            "sorting.reverse"@,
        ) + mark_if(
            field_present(sm, "dir-grouping"@) && spec_string_field(sm, "dir-grouping"@) is None,
            "sorting.dir-grouping"@,
        ),
        None => Seq::empty(),
    })
}

/// Every key a document sets to a value of the wrong type, in the order
/// the reader meets them, appended to what was recorded before.
pub open spec fn config_mismatches_from(base: Seq<Seq<char>>, m: YamlModel) -> Seq<Seq<char>> {
    base + string_section_marks(m, "color"@, "color.when"@, "color.theme"@) + string_section_marks(
        m,
        "icons"@,
        "icons.when"@,
        "icons.theme"@,
    ) + recursion_marks(m) + sorting_marks(m) + mark_if(
        field_present(m, "classic"@) && spec_bool_field(m, "classic"@) is None,
        "classic"@,
    ) + mark_if(
        field_present(m, "blocks"@) && spec_string_list(m, "blocks"@) is None,
        "blocks"@,
    ) + mark_if(
        field_present(m, "date"@) && spec_string_field(m, "date"@) is None,
        "date"@,
    ) + mark_if(
        field_present(m, "dereference"@) && spec_bool_field(m, "dereference"@) is None,
        "dereference"@,
    ) + mark_if(
        field_present(m, "display"@) && spec_string_field(m, "display"@) is None,
        "display"@,
    ) + mark_if(
        field_present(m, "ignore-globs"@) && spec_string_list(m, "ignore-globs"@) is None,
        "ignore-globs"@,
    ) + mark_if(
        field_present(m, "indicators"@) && spec_bool_field(m, "indicators"@) is None,
        "indicators"@,
    ) + mark_if(
        field_present(m, "layout"@) && spec_string_field(m, "layout"@) is None,
        "layout"@,
    ) + mark_if(
        field_present(m, "size"@) && spec_string_field(m, "size"@) is None,
        "size"@,
    ) + mark_if(
        field_present(m, "no-symlink"@) && spec_bool_field(m, "no-symlink"@) is None,
        "no-symlink"@,
    ) + mark_if(
        field_present(m, "total-size"@) && spec_bool_field(m, "total-size"@) is None,
        "total-size"@,
    ) + mark_if(
        field_present(m, "symlink-arrow"@) && spec_string_field(m, "symlink-arrow"@) is None,
        "symlink-arrow"@,
    )
}

/// Every key a document sets to a value of the wrong type, in the order
/// the reader meets them.
pub open spec fn config_mismatches(m: YamlModel) -> Seq<Seq<char>> {
    config_mismatches_from(Seq::empty(), m)
}

/// A section of a mapping node: present only as a mapping; any other
/// present value is a mismatch, recorded under the section's key.
fn section_field<'a>(
    node: &'a serde_yaml::Value,
    key: &str,
    mismatched: &mut Vec<String>,
) -> (r: Option<&'a serde_yaml::Value>)
    ensures
        match spec_section(yaml_model(*node), key@) {
            Some(fm) => r matches Some(v) && yaml_model(*v) == fm,
            None => r is None,
        },
        view_strings(final(mismatched)@) == view_strings(old(mismatched)@) + mark_if(
            field_present(yaml_model(*node), key@) && spec_section(yaml_model(*node), key@) is None,
            key@,
        ),
{
    let r = match yaml::get_field(node, key) {
        Some(v) => {
            if yaml::is_mapping(v) {
                Some(v)
            } else {
                mismatched.push(String::from_str(key));
                None
            }
        },
        None => None,
    };
    proof {
        assert(view_strings(mismatched@) =~= view_strings(old(mismatched)@) + mark_if(
            field_present(yaml_model(*node), key@) && spec_section(yaml_model(*node), key@) is None,
            key@,
        ));
    }
    r
}

/// A boolean field of a mapping node: absent when missing; a present
/// non-boolean is a mismatch, recorded under `label`.
fn bool_field_report(
    node: &serde_yaml::Value,
    key: &str,
    label: &str,
    mismatched: &mut Vec<String>,
) -> (r: Option<bool>)
    ensures
        r == spec_bool_field(yaml_model(*node), key@),
        view_strings(final(mismatched)@) == view_strings(old(mismatched)@) + mark_if(
            field_present(yaml_model(*node), key@) && spec_bool_field(yaml_model(*node), key@)
                is None,
            label@,
        ),
{
    let r = match yaml::get_field(node, key) {
        Some(v) => match yaml::as_bool(v) {
            Some(b) => Some(b),
            None => {
                mismatched.push(String::from_str(label));
                None
            },
        },
        None => None,
    };
    proof {
        assert(view_strings(mismatched@) =~= view_strings(old(mismatched)@) + mark_if(
            field_present(yaml_model(*node), key@) && spec_bool_field(yaml_model(*node), key@)
                is None,
            label@,
        ));
    }
    r
}

/// A string field of a mapping node: absent when missing; a present
/// non-string is a mismatch, recorded under `label`.
fn string_field_report(
    node: &serde_yaml::Value,
    key: &str,
    label: &str,
    mismatched: &mut Vec<String>,
) -> (r: Option<String>)
    ensures
        opt_str_matches(r, spec_string_field(yaml_model(*node), key@)),
        view_strings(final(mismatched)@) == view_strings(old(mismatched)@) + mark_if(
            field_present(yaml_model(*node), key@) && spec_string_field(yaml_model(*node), key@)
                is None,
            label@,
        ),
{
    let r = match yaml::get_field(node, key) {
        Some(v) => match yaml::as_string(v) {
            Some(s) => Some(s),
            None => {
                mismatched.push(String::from_str(label));
                None
            },
        },
        None => None,
    };
    proof {
        assert(view_strings(mismatched@) =~= view_strings(old(mismatched)@) + mark_if(
            field_present(yaml_model(*node), key@) && spec_string_field(yaml_model(*node), key@)
                is None,
            label@,
        ));
    }
    r
}

/// A string field of a mapping node, absent when missing or mistyped,
/// without mismatch recording.
pub(crate) fn string_field(node: &serde_yaml::Value, key: &str) -> (r: Option<String>)
    ensures
        opt_str_matches(r, spec_string_field(yaml_model(*node), key@)),
{
    match yaml::get_field(node, key) {
        Some(v) => yaml::as_string(v),
        None => None,
    }
}

/// A recursion-depth field of a mapping node: absent when missing; a
/// present value that is no positive integer fitting this machine is a
/// mismatch, recorded under `label`.
fn depth_field_report(
    node: &serde_yaml::Value,
    key: &str,
    label: &str,
    mismatched: &mut Vec<String>,
) -> (r: Option<usize>)
    ensures
        r == spec_depth_field(yaml_model(*node), key@),
        view_strings(final(mismatched)@) == view_strings(old(mismatched)@) + mark_if(
            field_present(yaml_model(*node), key@) && spec_depth_field(yaml_model(*node), key@)
                is None,
            label@,
        ),
{
    let r = match yaml::get_field(node, key) {
        Some(v) => match yaml::as_u64(v) {
            Some(n) => {
                if 1 <= n && n <= usize::MAX as u64 {
                    Some(n as usize)
                } else {
                    mismatched.push(String::from_str(label));
                    None
                }
            },
            None => {
                mismatched.push(String::from_str(label));
                None
            },
        },
        None => None,
    };
    proof {
        assert(view_strings(mismatched@) =~= view_strings(old(mismatched)@) + mark_if(
            field_present(yaml_model(*node), key@) && spec_depth_field(yaml_model(*node), key@)
                is None,
            label@,
        ));
    }
    r
}

/// A field holding a sequence of strings: absent when missing; a present
/// value that is no sequence, or one holding a non-string element, is a
/// mismatch, recorded under the field's key.
fn string_list_field(
    node: &serde_yaml::Value,
    key: &str,
    mismatched: &mut Vec<String>,
) -> (r: Option<Vec<String>>)
    ensures
        opt_list_matches(r, spec_string_list(yaml_model(*node), key@)),
        view_strings(final(mismatched)@) == view_strings(old(mismatched)@) + mark_if(
            field_present(yaml_model(*node), key@) && spec_string_list(yaml_model(*node), key@)
                is None,
            key@,
        ),
{
    match yaml::get_field(node, key) {
        Some(v) => match yaml::as_sequence(v) {
            Some(elements) => {
                let ghost ms = (match untag_model(yaml_model(*v)) {
                    YamlModel::List(s) => s,
                    _ => Seq::<YamlModel>::empty(),
                });
                let mut out: Vec<String> = Vec::new();
                let mut i: usize = 0;
                while i < elements.len()
                    invariant
                        i <= elements.len(),
                        out@.len() == i,
                        elements@.len() == ms.len(),
                        model_field(yaml_model(*node), key@) matches Some(f) && untag_model(f)
                            == YamlModel::List(ms),
                        forall|j: int| 0 <= j < ms.len() ==> yaml_model(elements@[j]) == ms[j],
                        forall|j: int| 0 <= j < i ==> untag_model(#[trigger] ms[j]) is Str,
                        forall|j: int| 0 <= j < i ==> out@[j]@ == str_of(untag_model(ms[j])),
                        view_strings(mismatched@) == view_strings(old(mismatched)@),
                    decreases elements.len() - i,
                {
                    match yaml::as_string(&elements[i]) {
                        Some(s) => out.push(s),
                        None => {
                            mismatched.push(String::from_str(key));
                            proof {
                                assert(yaml_model(elements@[i as int]) == ms[i as int]);
                                assert(!(untag_model(ms[i as int]) is Str));
                                assert(spec_string_list(yaml_model(*node), key@) is None);
                                assert(view_strings(mismatched@) =~= view_strings(old(mismatched)@)
                                    + mark_if(true, key@));
                            }
                            return None;
                        },
                    }
                    i = i + 1;
                }
                proof {
                    assert(view_strings(out@) =~= ms.map_values(
                        |e: YamlModel| str_of(untag_model(e)),
                    ));
                    assert(view_strings(mismatched@) =~= view_strings(old(mismatched)@)
                        + Seq::<Seq<char>>::empty());
                }
                Some(out)
            },
            None => {
                mismatched.push(String::from_str(key));
                proof {
                    assert(view_strings(mismatched@) =~= view_strings(old(mismatched)@) + mark_if(
                        true,
                        key@,
                    ));
                }
                None
            },
        },
        None => {
            proof {
                assert(view_strings(mismatched@) =~= view_strings(old(mismatched)@)
                    + Seq::<Seq<char>>::empty());
            }
            None
        },
    }
}


impl Default for Config {
    /// The built-in defaults, at the document layer: the values that the
    /// shipped configuration template sets.
    fn default() -> (r: Self)
        ensures
            r.classic == Some(false),
            r.blocks matches Some(b) && b@.len() == 6 && b@[0]@ == "permission"@ && b@[1]@
                == "user"@ && b@[2]@ == "group"@ && b@[3]@ == "size"@ && b@[4]@ == "date"@ && b@[5]@
                == "name"@,
            r.color matches Some(c) && c.when matches Some(w) && w@ == "auto"@ && c.theme is None,
            r.date matches Some(d) && d@ == "date"@,
            r.dereference == Some(false),
            r.display is None,
            r.icons matches Some(i) && (i.when matches Some(w) && w@ == "auto"@) && (
            i.theme matches Some(t) && t@ == "fancy"@),
            r.ignore_globs is None,
            r.indicators == Some(false),
            r.layout matches Some(l) && l@ == "grid"@,
            r.recursion matches Some(rec) && rec.enabled == Some(false) && rec.depth is None,
            r.size matches Some(s) && s@ == "default"@,
            r.sorting matches Some(so) && (so.column matches Some(col) && col@ == "name"@)
                && so.reverse == Some(false) && (so.dir_grouping matches Some(g) && g@ == "none"@),
            r.no_symlink == Some(false),
            r.total_size == Some(false),
            r.symlink_arrow matches Some(a) && a@ == "\u{21d2}"@,
    {
        let mut blocks: Vec<String> = Vec::new();
        blocks.push(String::from_str("permission"));
        blocks.push(String::from_str("user"));
        blocks.push(String::from_str("group"));
        blocks.push(String::from_str("size"));
        blocks.push(String::from_str("date"));
        blocks.push(String::from_str("name"));
        Config {
            classic: Some(false),
            blocks: Some(blocks),
            color: Some(Color { when: Some(String::from_str("auto")), theme: None }),
            date: Some(String::from_str("date")),
            dereference: Some(false),
            display: None,
            icons: Some(
                Icons { when: Some(String::from_str("auto")), theme: Some(String::from_str("fancy")) },
            ),
            ignore_globs: None,
            indicators: Some(false),
            layout: Some(String::from_str("grid")),
            recursion: Some(Recursion { enabled: Some(false), depth: None }),
            size: Some(String::from_str("default")),
            sorting: Some(
                Sorting {
                    column: Some(String::from_str("name")),
                    reverse: Some(false),
                    dir_grouping: Some(String::from_str("none")),
                },
            ),
            no_symlink: Some(false),
            total_size: Some(false),
            symlink_arrow: Some(String::from_str("\u{21d2}")),
        }
    }
}

} // verus!
