//! The icon resolver: from a file's observed type, name and extension to
//! the glyph string to render, through an ordered fallback chain.

use crate::flags::icons::IconOption;
use crate::flags::icons::IconTheme as FlagTheme;
use crate::text::lower_of;
use crate::text::to_lower;
use crate::theme::assoc_find;
use crate::theme::assoc_lookup;
use crate::theme::is_fancy_theme;
use crate::theme::is_unicode_theme;
use crate::theme::IconTheme;
use vstd::prelude::*;

verus! {

/// The closed classification of a filesystem entry, observed from its
/// metadata at listing time.
#[derive(Clone, Copy, Debug, PartialEq, Eq, Structural)]
pub enum FileType {
    Directory,
    File { executable: bool },
    SymLink { is_dir: bool },
    Socket,
    Pipe,
    CharDevice,
    BlockDevice,
    Special,
}

/// The facts the icon resolver needs about one listed entry: its file name
/// and its category. The extension is derived from the name.
#[derive(Clone, Debug)]
pub struct Name {
    pub name: String,
    pub file_type: FileType,
}

/// The position of the last `.` in a name, `-1` where there is none.
pub open spec fn last_dot_index(s: Seq<char>) -> int
    decreases s.len(),
{
    if s.len() == 0 {
        -1
    } else if s[s.len() - 1] == '.' {
        s.len() - 1
    } else {
        last_dot_index(s.drop_last())
    }
}

/// The extractable extension of a name: the suffix after the last `.`,
/// provided that dot stands after the first character. A dotfile with no
/// further dot has no extension under this rule.
pub open spec fn ext_of(s: Seq<char>) -> Option<Seq<char>> {
    let d = last_dot_index(s);
    if d >= 1 {
        Some(s.subrange(d + 1, s.len() as int))
    } else {
        None
    }
}

proof fn lemma_last_dot_at(s: Seq<char>, k: int)
    requires
        0 <= k < s.len(),
        s[k] == '.',
        forall|j: int| k < j < s.len() ==> s[j] != '.',
    ensures
        last_dot_index(s) == k,
    decreases s.len(),
{
    if k < s.len() - 1 {
        lemma_last_dot_at(s.drop_last(), k);
    }
}

proof fn lemma_no_dot(s: Seq<char>)
    requires
        forall|j: int| 0 <= j < s.len() ==> s[j] != '.',
    ensures
        last_dot_index(s) == -1,
    decreases s.len(),
{
    if s.len() > 0 {
        lemma_no_dot(s.drop_last());
    }
}

impl Name {
    /// Wraps the observed facts about one entry.
    pub fn new(name: String, file_type: FileType) -> (r: Self)
        ensures
            r.name == name,
            r.file_type == file_type,
    {
        Self { name, file_type }
    }

    /// The full file name.
    pub fn file_name(&self) -> (r: &str)
        ensures
            r@ == self.name@,
    {
        self.name.as_str()
    }

    /// The entry's category.
    pub fn file_type(&self) -> (r: FileType)
        ensures
            r == self.file_type,
    {
        self.file_type
    }

    /// The extractable extension, where the name has one.
    pub fn extension(&self) -> (r: Option<String>)
        ensures
            match ext_of(self.name@) {
                Some(e) => r matches Some(x) && x@ == e,
                None => r is None,
            },
    {
        let s = self.name.as_str();
        let n = s.unicode_len();
        let mut i: usize = n;
        while i > 0
            invariant
                i <= n,
                n == s@.len(),
                s@ == self.name@,
                forall|j: int| i <= j < n ==> s@[j] != '.',
            decreases i,
        {
            if s.get_char(i - 1) == '.' {
                if i >= 2 {
                    proof {
                        lemma_last_dot_at(s@, i - 1);
                    }
                    let e = s.substring_char(i, n);
                    return Some(String::from_str(e));
                } else {
                    proof {
                        lemma_last_dot_at(s@, 0);
                    }
                    return None;
                }
            }
            i = i - 1;
        }
        proof {
            lemma_no_dot(s@);
        }
        None
    }
}

/// The category-default glyph: the directory glyph for directories, the
/// executable glyph for executable regular files, the generic file glyph
/// otherwise.
pub open spec fn category_glyph_spec(t: IconTheme, ft: FileType) -> Seq<char> {
    match ft {
        FileType::Directory => t.icons_by_filetype.dir@,
        FileType::File { executable } => if executable {
            t.icons_by_filetype.executable@
        } else {
            t.icons_by_filetype.file@
        },
        _ => t.icons_by_filetype.file@,
    }
}

/// The glyph for a regular file or directory: the by-name entry for the
/// lowercase full name first, else the by-extension entry for the lowercase
/// extension, else the category default.
pub open spec fn name_glyph_spec(t: IconTheme, name: Name) -> Seq<char> {
    match assoc_find(t.icons_by_name@, lower_of(name.name@)) {
        Some(g) => g,
        None => match ext_of(name.name@) {
            Some(e) => match assoc_find(t.icons_by_extension@, lower_of(e)) {
                Some(g) => g,
                None => category_glyph_spec(t, name.file_type),
            },
            None => category_glyph_spec(t, name.file_type),
        },
    }
}

/// The glyph one entry resolves to under a theme. A category whose identity
/// is defined entirely by type — symlinks, sockets, pipes, devices,
/// specials — takes its fixed glyph; name and extension are never consulted
/// for it.
pub open spec fn glyph_spec(t: IconTheme, name: Name) -> Seq<char> {
    match name.file_type {
        FileType::SymLink { is_dir } => if is_dir {
            t.icons_by_filetype.symlink_dir@
        } else {
            t.icons_by_filetype.symlink_file@
        },
        FileType::Socket => t.icons_by_filetype.socket@,
        FileType::Pipe => t.icons_by_filetype.pipe@,
        FileType::CharDevice => t.icons_by_filetype.device_char@,
        FileType::BlockDevice => t.icons_by_filetype.device_block@,
        FileType::Special => t.icons_by_filetype.special@,
        FileType::Directory => name_glyph_spec(t, name),
        FileType::File { .. } => name_glyph_spec(t, name),
    }
}

/// The icon resolver: the chosen theme, or none when icons are disabled,
/// and the separator printed after each glyph.
pub struct Icons {
    pub icon_separator: String,
    pub theme: Option<IconTheme>,
}

/// What the resolver returns for one entry: the empty string with icons
/// disabled, else the resolved glyph with the separator appended.
pub open spec fn get_spec(icons: Icons, name: Name) -> Seq<char> {
    match icons.theme {
        None => Seq::<char>::empty(),
        Some(t) => glyph_spec(t, name) + icons.icon_separator@,
    }
}

/// Whether icons are off for this invocation: turned off outright, or left
/// on automatic with a non-interactive destination.
pub open spec fn icons_disabled_spec(tty: bool, when: IconOption) -> bool {
    when == IconOption::Never || (!tty && when == IconOption::Auto)
}

impl Icons {
    /// Whether icons are printed at all for this invocation.
    pub fn enabled(tty: bool, when: IconOption) -> (r: bool)
        ensures
            r == !icons_disabled_spec(tty, when),
    {
        !(matches!(when, IconOption::Never) || (!tty && matches!(when, IconOption::Auto)))
    }

    /// Chooses the theme for one invocation from the resolved options: none
    /// when icons are disabled, else the compiled-in table the theme choice
    /// names.
    pub fn new(tty: bool, when: IconOption, theme: FlagTheme, icon_separator: String) -> (r: Self)
        ensures
            r.icon_separator == icon_separator,
            (r.theme is None) <==> icons_disabled_spec(tty, when),
            r.theme matches Some(t) ==> (theme == FlagTheme::Fancy ==> is_fancy_theme(t)) && (theme
                == FlagTheme::Unicode ==> is_unicode_theme(t)),
    {
        let icon_theme = if matches!(when, IconOption::Never) || (!tty && matches!(
            when,
            IconOption::Auto,
        )) {
            None
        } else {
            match theme {
                FlagTheme::Fancy => Some(IconTheme::fancy()),
                FlagTheme::Unicode => Some(IconTheme::unicode()),
            }
        };
        Self { icon_separator, theme: icon_theme }
    }

    /// Wraps an already-built theme — one with a user override laid over
    /// it, say — or none to disable icons.
    pub fn with_theme(theme: Option<IconTheme>, icon_separator: String) -> (r: Self)
        ensures
            r.icon_separator == icon_separator,
            r.theme == theme,
    {
        Self { icon_separator, theme }
    }

    /// Resolves one entry to its glyph string: empty with icons disabled,
    /// else the first match in the fallback chain, with the separator
    /// appended.
    pub fn get(&self, name: &Name) -> (r: String)
        ensures
            r@ == get_spec(*self, *name),
    {
        match &self.theme {
            None => String::new(),
            Some(t) => {
                let glyph = match name.file_type {
                    FileType::SymLink { is_dir } => if is_dir {
                        t.icons_by_filetype.symlink_dir.clone()
                    } else {
                        t.icons_by_filetype.symlink_file.clone()
                    },
                    FileType::Socket => t.icons_by_filetype.socket.clone(),
                    FileType::Pipe => t.icons_by_filetype.pipe.clone(),
                    FileType::CharDevice => t.icons_by_filetype.device_char.clone(),
                    FileType::BlockDevice => t.icons_by_filetype.device_block.clone(),
                    FileType::Special => t.icons_by_filetype.special.clone(),
                    FileType::Directory => name_glyph(t, name),
                    FileType::File { .. } => name_glyph(t, name),
                };
                let mut out = glyph;
                out.append(self.icon_separator.as_str());
                out
            },
        }
    }
}

/// The category-default glyph, cloned out of the table.
fn category_glyph(t: &IconTheme, ft: FileType) -> (r: String)
    ensures
        r@ == category_glyph_spec(*t, ft),
{
    match ft {
        FileType::Directory => t.icons_by_filetype.dir.clone(),
        FileType::File { executable } => if executable {
            t.icons_by_filetype.executable.clone()
        } else {
            t.icons_by_filetype.file.clone()
        },
        _ => t.icons_by_filetype.file.clone(),
    }
}

/// The by-name, by-extension, category-default chain for regular files and
/// directories.
fn name_glyph(t: &IconTheme, name: &Name) -> (r: String)
    ensures
        r@ == name_glyph_spec(*t, *name),
{
    let lower = to_lower(name.name.as_str());
    match assoc_lookup(&t.icons_by_name, &lower) {
        Some(g) => g,
        None => match name.extension() {
            Some(e) => {
                let lower_ext = to_lower(e.as_str());
                match assoc_lookup(&t.icons_by_extension, &lower_ext) {
                    Some(g) => g,
                    None => category_glyph(t, name.file_type),
                }
            },
            None => category_glyph(t, name.file_type),
        },
    }
}

/// Law: a symbolic link resolves to the symlink glyph for its target kind,
/// whatever its name or extension; by-name and by-extension entries are
/// never consulted for it.
pub proof fn lemma_symlink_by_category(t: IconTheme, name: Name, is_dir: bool)
    requires
        name.file_type == (FileType::SymLink { is_dir }),
    ensures
        glyph_spec(t, name) == if is_dir {
            t.icons_by_filetype.symlink_dir@
        } else {
            t.icons_by_filetype.symlink_file@
        },
{
}

/// Law: a full-name match wins over any extension match, for regular files
/// and directories alike.
pub proof fn lemma_name_over_extension(t: IconTheme, name: Name, g: Seq<char>)
    requires
        name.file_type == FileType::Directory || name.file_type matches FileType::File { .. },
        assoc_find(t.icons_by_name@, lower_of(name.name@)) == Some(g),
    ensures
        glyph_spec(t, name) == g,
{
}

/// Law: a regular, non-executable file whose name and extension match
/// nothing resolves to the theme's generic file glyph.
pub proof fn lemma_exhaustive_fallback(t: IconTheme, name: Name)
    requires
        name.file_type == (FileType::File { executable: false }),
        assoc_find(t.icons_by_name@, lower_of(name.name@)) is None,
        match ext_of(name.name@) {
            Some(e) => assoc_find(t.icons_by_extension@, lower_of(e)) is None,
            None => true,
        },
    ensures
        glyph_spec(t, name) == t.icons_by_filetype.file@,
{
}

/// Law: with icons disabled, the resolver yields the empty string for
/// every entry, whatever its type.
pub proof fn lemma_disabled_icons_empty(icons: Icons, name: Name)
    requires
        icons.theme is None,
    ensures
        get_spec(icons, name) == Seq::<char>::empty(),
{
}

} // verus!
