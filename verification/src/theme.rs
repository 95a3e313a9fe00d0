//! The icon theme: an immutable glyph lookup table keyed by file-type
//! category, by lowercase file name, and by lowercase extension.
//!
//! A theme is one of two compiled-in tables, or a compiled-in table with a
//! user override document laid over it key by key: a key the override sets
//! takes its glyph from the override, every other key keeps the base value.

use crate::config_file::model_field;
use crate::config_file::opt_str_matches;
use crate::config_file::spec_string_field;
use crate::config_file::str_of;
use crate::config_file::string_field;
use crate::yaml;
use crate::yaml::entry_key_matches;
use crate::yaml::parse_of;
use crate::yaml::untag_model;
use crate::yaml::yaml_model;
use crate::yaml::YamlModel;
use vstd::prelude::*;

verus! {

/// The per-category glyphs. Every category has one: this table is the
/// ultimate fallback and is never absent.
#[derive(Clone, Debug)]
pub struct FiletypeIcons {
    pub dir: String,
    pub file: String,
    pub executable: String,
    pub symlink_dir: String,
    pub symlink_file: String,
    pub socket: String,
    pub pipe: String,
    pub device_char: String,
    pub device_block: String,
    pub special: String,
}

/// One icon lookup table, constructed once and read-only thereafter.
#[derive(Clone, Debug)]
pub struct IconTheme {
    pub icons_by_filetype: FiletypeIcons,
    pub icons_by_name: Vec<(String, String)>,
    pub icons_by_extension: Vec<(String, String)>,
}

/// The glyph a key resolves to in an entry list: the first entry whose key
/// matches, `None` where none does.
pub open spec fn assoc_find(entries: Seq<(String, String)>, key: Seq<char>) -> Option<Seq<char>>
    decreases entries.len(),
{
    if entries.len() == 0 {
        None
    } else if entries[0].0@ == key {
        Some(entries[0].1@)
    } else {
        assoc_find(entries.drop_first(), key)
    }
}

/// Looks a key up in an entry list.
pub fn assoc_lookup(entries: &Vec<(String, String)>, key: &String) -> (r: Option<String>)
    ensures
        match assoc_find(entries@, key@) {
            Some(v) => r matches Some(g) && g@ == v,
            None => r is None,
        },
{
    let mut i: usize = 0;
    proof {
        assert(entries@.skip(0) =~= entries@);
    }
    while i < entries.len()
        invariant
            i <= entries.len(),
            assoc_find(entries@, key@) == assoc_find(entries@.skip(i as int), key@),
        decreases entries.len() - i,
    {
        let pair = &entries[i];
        proof {
            assert(entries@.skip(i as int)[0] == entries@[i as int]);
        }
        if pair.0.eq(key) {
            return Some(pair.1.clone());
        }
        proof {
            assert(entries@.skip(i as int).drop_first() =~= entries@.skip(i as int + 1));
        }
        i = i + 1;
    }
    None
}

/// Law: laying one entry list over another resolves every key to the
/// overlay's glyph where the overlay has the key, and to the base's
/// resolution everywhere else. This is the per-key override rule.
pub proof fn lemma_overlay_lookup(
    over: Seq<(String, String)>,
    base: Seq<(String, String)>,
    key: Seq<char>,
)
    ensures
        assoc_find(over + base, key) == (match assoc_find(over, key) {
            Some(v) => Some(v),
            None => assoc_find(base, key),
        }),
    decreases over.len(),
{
    if over.len() == 0 {
        assert(over + base =~= base);
    } else {
        assert((over + base).drop_first() =~= over.drop_first() + base);
        lemma_overlay_lookup(over.drop_first(), base, key);
    }
}

/// A user override document: each glyph optional, each entry list possibly
/// empty. Keys it does not set keep the base theme's glyphs.
#[derive(Clone, Debug)]
pub struct FiletypeOverrides {
    pub dir: Option<String>,
    pub file: Option<String>,
    pub executable: Option<String>,
    pub symlink_dir: Option<String>,
    pub symlink_file: Option<String>,
    pub socket: Option<String>,
    pub pipe: Option<String>,
    pub device_char: Option<String>,
    pub device_block: Option<String>,
    pub special: Option<String>,
}

/// The parsed form of an icon-theme override document.
#[derive(Clone, Debug)]
pub struct IconOverlay {
    pub icons_by_filetype: FiletypeOverrides,
    pub icons_by_name: Vec<(String, String)>,
    pub icons_by_extension: Vec<(String, String)>,
}

/// The glyph a category override resolves to over a base glyph.
pub open spec fn pick_spec(over: Option<String>, base: String) -> Seq<char> {
    match over {
        Some(g) => g@,
        None => base@,
    }
}

/// One category glyph, overridden or kept.
fn pick(over: &Option<String>, base: String) -> (r: String)
    ensures
        r@ == pick_spec(*over, base),
{
    match over {
        Some(g) => g.clone(),
        None => base,
    }
}

/// An entry list with an override list laid in front, so that a lookup
/// meets the override's entries first.
fn prepend_entries(over: &Vec<(String, String)>, base: Vec<(String, String)>) -> (r: Vec<
    (String, String),
>)
    ensures
        r@ == over@ + base@,
{
    let mut out: Vec<(String, String)> = Vec::new();
    let mut i: usize = 0;
    while i < over.len()
        invariant
            i <= over.len(),
            out@ =~= over@.subrange(0, i as int),
        decreases over.len() - i,
    {
        let pair = &over[i];
        out.push((pair.0.clone(), pair.1.clone()));
        i = i + 1;
    }
    let mut j: usize = 0;
    while j < base.len()
        invariant
            j <= base.len(),
            out@ =~= over@ + base@.subrange(0, j as int),
        decreases base.len() - j,
    {
        let pair = &base[j];
        out.push((pair.0.clone(), pair.1.clone()));
        j = j + 1;
    }
    proof {
        assert(out@ =~= over@ + base@);
    }
    out
}

impl IconTheme {
    /// Lays a user override document over this theme, key by key: entries
    /// the override sets replace the base glyph, all others keep it.
    pub fn overlay(self, over: &IconOverlay) -> (r: IconTheme)
        ensures
            r.icons_by_filetype.dir@ == pick_spec(over.icons_by_filetype.dir, self.icons_by_filetype.dir),
            r.icons_by_filetype.file@ == pick_spec(
                over.icons_by_filetype.file,
                self.icons_by_filetype.file,
            ),
            r.icons_by_filetype.executable@ == pick_spec(
                over.icons_by_filetype.executable,
                self.icons_by_filetype.executable,
            ),
            r.icons_by_filetype.symlink_dir@ == pick_spec(
                over.icons_by_filetype.symlink_dir,
                self.icons_by_filetype.symlink_dir,
            ),
            r.icons_by_filetype.symlink_file@ == pick_spec(
                over.icons_by_filetype.symlink_file,
                self.icons_by_filetype.symlink_file,
            ),
            r.icons_by_filetype.socket@ == pick_spec(
                over.icons_by_filetype.socket,
                self.icons_by_filetype.socket,
            ),
            r.icons_by_filetype.pipe@ == pick_spec(over.icons_by_filetype.pipe, self.icons_by_filetype.pipe),
            r.icons_by_filetype.device_char@ == pick_spec(
                over.icons_by_filetype.device_char,
                self.icons_by_filetype.device_char,
            ),
            r.icons_by_filetype.device_block@ == pick_spec(
                over.icons_by_filetype.device_block,
                self.icons_by_filetype.device_block,
            ),
            r.icons_by_filetype.special@ == pick_spec(
                over.icons_by_filetype.special,
                self.icons_by_filetype.special,
            ),
            r.icons_by_name@ == over.icons_by_name@ + self.icons_by_name@,
            r.icons_by_extension@ == over.icons_by_extension@ + self.icons_by_extension@,
    {
        let base = self.icons_by_filetype;
        IconTheme {
            icons_by_filetype: FiletypeIcons {
                dir: pick(&over.icons_by_filetype.dir, base.dir),
                file: pick(&over.icons_by_filetype.file, base.file),
                executable: pick(&over.icons_by_filetype.executable, base.executable),
                symlink_dir: pick(&over.icons_by_filetype.symlink_dir, base.symlink_dir),
                symlink_file: pick(&over.icons_by_filetype.symlink_file, base.symlink_file),
                socket: pick(&over.icons_by_filetype.socket, base.socket),
                pipe: pick(&over.icons_by_filetype.pipe, base.pipe),
                device_char: pick(&over.icons_by_filetype.device_char, base.device_char),
                device_block: pick(&over.icons_by_filetype.device_block, base.device_block),
                special: pick(&over.icons_by_filetype.special, base.special),
            },
            icons_by_name: prepend_entries(&over.icons_by_name, self.icons_by_name),
            icons_by_extension: prepend_entries(&over.icons_by_extension, self.icons_by_extension),
        }
    }
}

/// The key and glyph views of an entry list.
pub open spec fn entry_views(entries: Seq<(String, String)>) -> Seq<(Seq<char>, Seq<char>)> {
    entries.map_values(|p: (String, String)| (p.0@, p.1@))
}

/// The compiled-in by-name entries of the fancy table.
pub open spec fn fancy_names() -> Seq<(Seq<char>, Seq<char>)> {
    seq![
        (".git"@, "\u{f1d3}"@),
        (".gitignore"@, "\u{f1d3}"@),
        (".gitconfig"@, "\u{f1d3}"@),
        ("bin"@, "\u{e5fc}"@),
        ("config"@, "\u{e5fc}"@),
        ("docs"@, "\u{f02d}"@),
        ("dockerfile"@, "\u{f308}"@),
        ("makefile"@, "\u{f489}"@),
        ("desktop"@, "\u{f108}"@),
        ("downloads"@, "\u{f498}"@),
        ("music"@, "\u{f001}"@),
        ("node_modules"@, "\u{e718}"@),
    ]
}

/// The compiled-in by-extension entries of the fancy table.
pub open spec fn fancy_extensions() -> Seq<(Seq<char>, Seq<char>)> {
    seq![
        ("md"@, "\u{f48a}"@),
        ("txt"@, "\u{f15c}"@),
        ("rs"@, "\u{e7a8}"@),
        ("yaml"@, "\u{f481}"@),
        ("yml"@, "\u{f481}"@),
        ("json"@, "\u{e60b}"@),
        ("toml"@, "\u{e615}"@),
        ("py"@, "\u{e606}"@),
        ("js"@, "\u{e74e}"@),
        ("html"@, "\u{f13b}"@),
        ("css"@, "\u{e749}"@),
        ("sh"@, "\u{f489}"@),
        ("c"@, "\u{e61e}"@),
        ("cpp"@, "\u{e61d}"@),
        ("zip"@, "\u{f410}"@),
        ("png"@, "\u{f1c5}"@),
        ("pdf"@, "\u{f1c1}"@),
    ]
}

/// The whole compiled-in fancy table.
pub open spec fn is_fancy_theme(t: IconTheme) -> bool {
    fancy_filetype_glyphs(t.icons_by_filetype) && entry_views(t.icons_by_name@) == fancy_names()
        && entry_views(t.icons_by_extension@) == fancy_extensions()
}

/// The whole compiled-in unicode table.
pub open spec fn is_unicode_theme(t: IconTheme) -> bool {
    unicode_filetype_glyphs(t.icons_by_filetype) && t.icons_by_name@.len() == 0
        && t.icons_by_extension@.len() == 0
}

/// The per-category glyphs of the compiled-in fancy table.
pub open spec fn fancy_filetype_glyphs(f: FiletypeIcons) -> bool {
    f.dir@ == "\u{f115}"@ && f.file@ == "\u{f016}"@ && f.executable@ == "\u{f489}"@
        && f.symlink_dir@ == "\u{f482}"@ && f.symlink_file@ == "\u{f481}"@ && f.socket@
        == "\u{f6a7}"@ && f.pipe@ == "\u{f731}"@ && f.device_char@ == "\u{e601}"@
        && f.device_block@ == "\u{fc29}"@ && f.special@ == "\u{f2dc}"@
}

/// The per-category glyphs of the compiled-in unicode table.
pub open spec fn unicode_filetype_glyphs(f: FiletypeIcons) -> bool {
    f.dir@ == "\u{1f4c2}"@ && f.file@ == "\u{1f4c4}"@ && f.executable@ == "\u{1f3d7}"@
        && f.symlink_dir@ == "\u{1f5c2}"@ && f.symlink_file@ == "\u{1f516}"@ && f.socket@
        == "\u{1f50c}"@ && f.pipe@ == "\u{1f4e9}"@ && f.device_char@ == "\u{1f4df}"@
        && f.device_block@ == "\u{1f4bd}"@ && f.special@ == "\u{1f4a5}"@
}

/// One entry of a glyph table.
fn entry(key: &str, glyph: &str) -> (r: (String, String))
    ensures
        r.0@ == key@,
        r.1@ == glyph@,
{
    (String::from_str(key), String::from_str(glyph))
}

impl IconTheme {
    /// The compiled-in fancy table: glyphs from an icon font, with by-name
    /// and by-extension entries besides the per-category ones.
    pub fn fancy() -> (t: IconTheme)
        ensures
            is_fancy_theme(t),
    {
        IconTheme {
            icons_by_filetype: FiletypeIcons {
                dir: String::from_str("\u{f115}"),
                file: String::from_str("\u{f016}"),
                executable: String::from_str("\u{f489}"),
                symlink_dir: String::from_str("\u{f482}"),
                symlink_file: String::from_str("\u{f481}"),
                socket: String::from_str("\u{f6a7}"),
                pipe: String::from_str("\u{f731}"),
                device_char: String::from_str("\u{e601}"),
                device_block: String::from_str("\u{fc29}"),
                special: String::from_str("\u{f2dc}"),
            },
            icons_by_name: Self::get_default_icons_by_name(),
            icons_by_extension: Self::get_default_icons_by_extension(),
        }
    }

    /// The compiled-in unicode table: plain Unicode glyphs, per-category
    /// entries only.
    pub fn unicode() -> (t: IconTheme)
        ensures
            is_unicode_theme(t),
    {
        IconTheme {
            icons_by_filetype: FiletypeIcons {
                dir: String::from_str("\u{1f4c2}"),
                file: String::from_str("\u{1f4c4}"),
                executable: String::from_str("\u{1f3d7}"),
                symlink_dir: String::from_str("\u{1f5c2}"),
                symlink_file: String::from_str("\u{1f516}"),
                socket: String::from_str("\u{1f50c}"),
                pipe: String::from_str("\u{1f4e9}"),
                device_char: String::from_str("\u{1f4df}"),
                device_block: String::from_str("\u{1f4bd}"),
                special: String::from_str("\u{1f4a5}"),
            },
            icons_by_name: Vec::new(),
            icons_by_extension: Vec::new(),
        }
    }

    /// The compiled-in by-name entries of the fancy table, keyed by
    /// lowercase full file name.
    pub fn get_default_icons_by_name() -> (r: Vec<(String, String)>)
        ensures
            entry_views(r@) == fancy_names(),
    {
        let mut v: Vec<(String, String)> = Vec::new();
        v.push(entry(".git", "\u{f1d3}"));
        v.push(entry(".gitignore", "\u{f1d3}"));
        v.push(entry(".gitconfig", "\u{f1d3}"));
        v.push(entry("bin", "\u{e5fc}"));
        v.push(entry("config", "\u{e5fc}"));
        v.push(entry("docs", "\u{f02d}"));
        v.push(entry("dockerfile", "\u{f308}"));
        v.push(entry("makefile", "\u{f489}"));
        v.push(entry("desktop", "\u{f108}"));
        v.push(entry("downloads", "\u{f498}"));
        v.push(entry("music", "\u{f001}"));
        v.push(entry("node_modules", "\u{e718}"));
        proof {
            assert(entry_views(v@) =~= fancy_names());
        }
        v
    }

    /// The compiled-in by-extension entries of the fancy table, keyed by
    /// lowercase extension without the leading dot.
    pub fn get_default_icons_by_extension() -> (r: Vec<(String, String)>)
        ensures
            entry_views(r@) == fancy_extensions(),
    {
        let mut v: Vec<(String, String)> = Vec::new();
        v.push(entry("md", "\u{f48a}"));
        v.push(entry("txt", "\u{f15c}"));
        v.push(entry("rs", "\u{e7a8}"));
        v.push(entry("yaml", "\u{f481}"));
        v.push(entry("yml", "\u{f481}"));
        v.push(entry("json", "\u{e60b}"));
        v.push(entry("toml", "\u{e615}"));
        v.push(entry("py", "\u{e606}"));
        v.push(entry("js", "\u{e74e}"));
        v.push(entry("html", "\u{f13b}"));
        v.push(entry("css", "\u{e749}"));
        v.push(entry("sh", "\u{f489}"));
        v.push(entry("c", "\u{e61e}"));
        v.push(entry("cpp", "\u{e61d}"));
        v.push(entry("zip", "\u{f410}"));
        v.push(entry("png", "\u{f1c5}"));
        v.push(entry("pdf", "\u{f1c1}"));
        proof {
            assert(entry_views(v@) =~= fancy_extensions());
        }
        v
    }
}

/// The string-to-string entries of a mapping model, in order: an entry is
/// kept exactly where both its key and its glyph are strings.
pub open spec fn overlay_entries_of(es: Seq<(YamlModel, YamlModel)>) -> Seq<(Seq<char>, Seq<char>)>
    decreases es.len(),
{
    if es.len() == 0 {
        Seq::empty()
    } else {
        (if untag_model(es[0].0) is Str && untag_model(es[0].1) is Str {
            seq![(str_of(untag_model(es[0].0)), str_of(untag_model(es[0].1)))]
        } else {
            Seq::empty()
        }) + overlay_entries_of(es.drop_first())
    }
}

/// The entries an override document's section holds: nothing where the
/// section is absent or no mapping.
pub open spec fn spec_entry_section(m: YamlModel, key: Seq<char>) -> Seq<(Seq<char>, Seq<char>)> {
    match model_field(m, key) {
        Some(f) => match untag_model(f) {
            YamlModel::Mapping(es) => overlay_entries_of(es),
            _ => Seq::empty(),
        },
        None => Seq::empty(),
    }
}

/// Whether a category-override record sets nothing.
pub open spec fn no_filetype_overrides(f: FiletypeOverrides) -> bool {
    f.dir is None && f.file is None && f.executable is None && f.symlink_dir is None
        && f.symlink_file is None && f.socket is None && f.pipe is None && f.device_char is None
        && f.device_block is None && f.special is None
}

/// Whether a category-override record is exactly the reading of the
/// `icons-by-filetype` node of the model.
pub open spec fn filetype_overrides_match(fm: YamlModel, f: FiletypeOverrides) -> bool {
    opt_str_matches(f.dir, spec_string_field(fm, "dir"@)) && opt_str_matches(
        f.file,
        spec_string_field(fm, "file"@),
    ) && opt_str_matches(f.executable, spec_string_field(fm, "executable"@)) && opt_str_matches(
        f.symlink_dir,
        spec_string_field(fm, "symlink-dir"@),
    ) && opt_str_matches(f.symlink_file, spec_string_field(fm, "symlink-file"@)) && opt_str_matches(
        f.socket,
        spec_string_field(fm, "socket"@),
    ) && opt_str_matches(f.pipe, spec_string_field(fm, "pipe"@)) && opt_str_matches(
        f.device_char,
        spec_string_field(fm, "device-char"@),
    ) && opt_str_matches(f.device_block, spec_string_field(fm, "device-block"@)) && opt_str_matches(
        f.special,
        spec_string_field(fm, "special"@),
    )
}

/// Whether a parsed override is exactly the reading of a document model:
/// the three recognized sections mapped, anything else ignored, a
/// malformed section or entry skipped on its own.
pub open spec fn overlay_matches(m: YamlModel, o: IconOverlay) -> bool {
    (match model_field(m, "icons-by-filetype"@) {
        Some(fm) => filetype_overrides_match(fm, o.icons_by_filetype),
        None => no_filetype_overrides(o.icons_by_filetype),
    }) && entry_views(o.icons_by_name@) == spec_entry_section(m, "icons-by-name"@) && entry_views(
        o.icons_by_extension@,
    ) == spec_entry_section(m, "icons-by-extension"@)
}

/// Parses an icon-theme override document. `None` exactly when the text is
/// not structurally valid YAML; a malformed section or entry is skipped on
/// its own, so the base theme keeps those keys.
pub fn parse_icon_overlay(text: &str) -> (r: Option<IconOverlay>)
    ensures
        (r is Some) == (parse_of(text@) is Some),
        r matches Some(o) ==> (parse_of(text@) matches Some(m) && overlay_matches(m, o)),
{
    match yaml::parse_document(text) {
        Some(doc) => Some(overlay_from_tree(&doc)),
        None => None,
    }
}

/// Maps the three recognized sections of a parsed override tree.
fn overlay_from_tree(doc: &serde_yaml::Value) -> (r: IconOverlay)
    ensures
        overlay_matches(yaml_model(*doc), r),
{
    let by_filetype = match yaml::get_field(doc, "icons-by-filetype") {
        Some(section) => FiletypeOverrides {
            dir: string_field(section, "dir"),
            file: string_field(section, "file"),
            executable: string_field(section, "executable"),
            symlink_dir: string_field(section, "symlink-dir"),
            symlink_file: string_field(section, "symlink-file"),
            socket: string_field(section, "socket"),
            pipe: string_field(section, "pipe"),
            device_char: string_field(section, "device-char"),
            device_block: string_field(section, "device-block"),
            special: string_field(section, "special"),
        },
        None => FiletypeOverrides {
            dir: None,
            file: None,
            executable: None,
            symlink_dir: None,
            symlink_file: None,
            socket: None,
            pipe: None,
            device_char: None,
            device_block: None,
            special: None,
        },
    };
    IconOverlay {
        icons_by_filetype: by_filetype,
        icons_by_name: entry_section(doc, "icons-by-name"),
        icons_by_extension: entry_section(doc, "icons-by-extension"),
    }
}

/// The string-to-string entries of one mapping section; an entry whose key
/// or glyph is not a string is skipped on its own.
fn entry_section(doc: &serde_yaml::Value, key: &str) -> (r: Vec<(String, String)>)
    ensures
        entry_views(r@) == spec_entry_section(yaml_model(*doc), key@),
{
    let mut out: Vec<(String, String)> = Vec::new();
    proof {
        assert(entry_views(out@) =~= Seq::<(Seq<char>, Seq<char>)>::empty());
    }
    match yaml::get_field(doc, key) {
        Some(section) => {
            match yaml::as_entries(section) {
                Some(entries) => {
                    let ghost ms = (match untag_model(yaml_model(*section)) {
                        YamlModel::Mapping(es) => es,
                        _ => Seq::<(YamlModel, YamlModel)>::empty(),
                    });
                    proof {
                        assert(ms.skip(0) =~= ms);
                        assert(entry_views(out@) + overlay_entries_of(ms) =~= overlay_entries_of(
                            ms,
                        ));
                    }
                    let mut i: usize = 0;
                    while i < entries.len()
                        invariant
                            i <= entries.len(),
                            entries@.len() == ms.len(),
                            forall|j: int|
                                0 <= j < ms.len() ==> entry_key_matches(
                                    #[trigger] ms[j].0,
                                    entries@[j].0,
                                ) && yaml_model(entries@[j].1) == ms[j].1,
                            entry_views(out@) + overlay_entries_of(ms.skip(i as int))
                                == overlay_entries_of(ms),
                        decreases entries.len() - i,
                    {
                        proof {
                            assert(ms.skip(i as int)[0] == ms[i as int]);
                            assert(ms.skip(i as int).drop_first() =~= ms.skip(i as int + 1));
                        }
                        let ghost prev = out@;
                        let entry = &entries[i];
                        match &entry.0 {
                            Some(k) => match yaml::as_string(&entry.1) {
                                Some(g) => {
                                    out.push((k.clone(), g));
                                    proof {
                                        assert(entry_views(out@) =~= entry_views(prev) + seq![
                                            (
                                                str_of(untag_model(ms[i as int].0)),
                                                str_of(untag_model(ms[i as int].1)),
                                            ),
                                        ]);
                                        assert(entry_views(out@) + overlay_entries_of(
                                            ms.skip(i as int + 1),
                                        ) =~= overlay_entries_of(ms));
                                    }
                                },
                                None => {
                                    proof {
                                        assert(entry_views(out@) + overlay_entries_of(
                                            ms.skip(i as int + 1),
                                        ) =~= overlay_entries_of(ms));
                                    }
                                },
                            },
                            None => {
                                proof {
                                    assert(entry_views(out@) + overlay_entries_of(
                                        ms.skip(i as int + 1),
                                    ) =~= overlay_entries_of(ms));
                                }
                            },
                        }
                        i = i + 1;
                    }
                    proof {
                        assert(ms.skip(entries@.len() as int) =~= Seq::<(YamlModel, YamlModel)>::empty());
                        assert(entry_views(out@) =~= spec_entry_section(yaml_model(*doc), key@));
                    }
                },
                None => {
                    proof {
                        assert(entry_views(out@) =~= spec_entry_section(yaml_model(*doc), key@));
                    }
                },
            }
        },
        None => {
            proof {
                assert(entry_views(out@) =~= spec_entry_section(yaml_model(*doc), key@));
            }
        },
    }
    out
}

} // verus!
