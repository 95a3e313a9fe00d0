use lsd::config_file::Config;
use lsd::flags::color::ColorOption;
use lsd::flags::date::DateFlag;
use lsd::flags::display::Display;
use lsd::flags::icons::IconOption;
use lsd::flags::sorting::DirGrouping;
use lsd::flags::Args;
use lsd::flags::Flags;
use lsd::icon::FileType;
use lsd::icon::Icons;
use lsd::icon::Name;
use lsd::flags::layout::Layout;
use lsd::flags::size::SizeFlag;
use lsd::flags::sorting::SortColumn;
use lsd::theme::parse_icon_overlay;
use lsd::theme::IconTheme;

#[test]
fn argument_wins_over_document() {
    let mut c = Config::with_none();
    c.display = Some("all".into());
    let mut args = Args::with_none();
    args.directory_only = true;
    let f = Flags::configure_from(&args, &c);
    assert_eq!(f.display, Display::DirectoryItself);
}

#[test]
fn document_wins_when_no_argument() {
    let mut c = Config::with_none();
    c.display = Some("almost-all".into());
    let f = Flags::configure_from(&Args::with_none(), &c);
    assert_eq!(f.display, Display::AlmostAll);
}

#[test]
fn defaults_when_unconfigured() {
    let f = Flags::configure_from(&Args::with_none(), &Config::with_none());
    assert_eq!(f.display, Display::DisplayOnlyVisible);
    assert_eq!(f.color_when, ColorOption::Auto);
    assert_eq!(f.icon_when, IconOption::Auto);
    assert_eq!(f.date, DateFlag::Date);
    assert_eq!(f.dir_grouping, DirGrouping::NoGrouping);
    assert_eq!(f.color_theme.path, "theme.yaml");
}

#[test]
fn classic_forces_document_layer() {
    let c = Config::with_yaml("classic: true").unwrap();
    let f = Flags::configure_from(&Args::with_none(), &c);
    assert_eq!(f.color_when, ColorOption::Never);
    assert_eq!(f.dir_grouping, DirGrouping::NoGrouping);
    assert_eq!(f.icon_when, IconOption::Never);
    assert_eq!(f.date, DateFlag::Date);
}

#[test]
fn classic_overrides_document_values() {
    let doc = "classic: true\ncolor:\n  when: always\nsorting:\n  dir-grouping: first\n";
    let c = Config::with_yaml(doc).unwrap();
    let f = Flags::configure_from(&Args::with_none(), &c);
    assert_eq!(f.color_when, ColorOption::Never);
    assert_eq!(f.dir_grouping, DirGrouping::NoGrouping);
}

#[test]
fn argument_overrides_classic() {
    let c = Config::with_yaml("classic: true").unwrap();
    let mut args = Args::with_none();
    args.color = Some("always".into());
    let f = Flags::configure_from(&args, &c);
    assert_eq!(f.color_when, ColorOption::Always);
    // Options without an argument stay forced.
    assert_eq!(f.dir_grouping, DirGrouping::NoGrouping);
}

#[test]
fn other_options_follow_the_layers() {
    let doc = "layout: oneline\nsize: short\nsorting:\n  column: time\n  reverse: true\nrecursion:\n  enabled: true\n  depth: 4\ndereference: true\nsymlink-arrow: ->\nignore-globs:\n  - .git\n";
    let c = Config::with_yaml(doc).unwrap();
    let f = Flags::configure_from(&Args::with_none(), &c);
    assert_eq!(f.layout, Layout::OneLine);
    assert_eq!(f.size, SizeFlag::Short);
    assert_eq!(f.sort_column, SortColumn::Time);
    assert!(f.sort_reverse);
    assert!(f.recursion_enabled);
    assert_eq!(f.recursion_depth, Some(4));
    assert!(f.dereference);
    assert!(!f.indicators);
    assert_eq!(f.symlink_arrow, "->");
    assert_eq!(f.ignore_globs, vec![".git".to_string()]);

    let mut args = Args::with_none();
    args.tree = true;
    args.size = Some("bytes".into());
    args.sort = Some("version".into());
    args.depth = Some(2);
    let f2 = Flags::configure_from(&args, &c);
    assert_eq!(f2.layout, Layout::Tree);
    assert_eq!(f2.size, SizeFlag::Bytes);
    assert_eq!(f2.sort_column, SortColumn::Version);
    assert_eq!(f2.recursion_depth, Some(2));

    let f3 = Flags::configure_from(&Args::with_none(), &Config::with_none());
    assert_eq!(f3.layout, Layout::Grid);
    assert_eq!(f3.size, SizeFlag::Default);
    assert_eq!(f3.sort_column, SortColumn::Name);
    assert!(!f3.sort_reverse);
    assert!(!f3.recursion_enabled);
    assert_eq!(f3.recursion_depth, None);
    assert_eq!(f3.symlink_arrow, "\u{21d2}");
    assert_eq!(
        f3.blocks,
        vec!["permission", "user", "group", "size", "date", "name"]
    );
    assert!(f3.ignore_globs.is_empty());
}

#[test]
fn date_format_string() {
    let mut c = Config::with_none();
    c.date = Some("+%Y-%m-%d".into());
    let f = Flags::configure_from(&Args::with_none(), &c);
    assert_eq!(f.date, DateFlag::Formatted("%Y-%m-%d".into()));
    let mut c2 = Config::with_none();
    c2.date = Some("relative".into());
    let f2 = Flags::configure_from(&Args::with_none(), &c2);
    assert_eq!(f2.date, DateFlag::Relative);
}

#[test]
fn malformed_document_value_falls_through() {
    let mut c = Config::with_none();
    c.display = Some("everything".into());
    let f = Flags::configure_from(&Args::with_none(), &c);
    assert_eq!(f.display, Display::DisplayOnlyVisible);
}

#[test]
fn theme_overlay_single_extension() {
    // An override document specifying only one extension glyph leaves every
    // other entry at its compiled-in value.
    let over = parse_icon_overlay("icons-by-extension:\n  md: X\n").unwrap();
    let theme = IconTheme::fancy().overlay(&over);
    let icons = Icons::with_theme(Some(theme), " ".to_string());
    let file = |n: &str| Name::new(n.to_string(), FileType::File { executable: false });
    assert_eq!(icons.get(&file("readme.md")), "X ");
    assert_eq!(icons.get(&file("notes.txt")), "\u{f15c} ");
    assert_eq!(icons.get(&file("dockerfile")), "\u{f308} ");
    assert_eq!(
        icons.get(&Name::new("tmp".to_string(), FileType::Directory)),
        "\u{f115} "
    );
}

#[test]
fn theme_overlay_filetype_glyph() {
    let over = parse_icon_overlay("icons-by-filetype:\n  dir: D\n").unwrap();
    let theme = IconTheme::fancy().overlay(&over);
    let icons = Icons::with_theme(Some(theme), " ".to_string());
    assert_eq!(
        icons.get(&Name::new("tmp".to_string(), FileType::Directory)),
        "D "
    );
    assert_eq!(
        icons.get(&Name::new("f".to_string(), FileType::File { executable: false })),
        "\u{f016} "
    );
}

#[test]
fn theme_overlay_malformed_document() {
    assert!(parse_icon_overlay("icons-by-extension: [").is_none());
    // A malformed section is skipped on its own; the base table stands.
    let over = parse_icon_overlay("icons-by-extension: 42\n").unwrap();
    let theme = IconTheme::fancy().overlay(&over);
    let icons = Icons::with_theme(Some(theme), " ".to_string());
    assert_eq!(
        icons.get(&Name::new("a.md".to_string(), FileType::File { executable: false })),
        "\u{f48a} "
    );
}
