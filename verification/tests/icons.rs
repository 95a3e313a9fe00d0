use lsd::flags::icons::IconOption;
use lsd::flags::icons::IconTheme as FlagTheme;
use lsd::icon::FileType;
use lsd::icon::Icons;
use lsd::icon::Name;
use lsd::theme::IconTheme;

fn plain_file(name: &str) -> Name {
    Name::new(name.to_string(), FileType::File { executable: false })
}

#[test]
fn get_no_icon() {
    let icon = Icons::new(false, IconOption::Never, FlagTheme::Fancy, " ".to_string());
    let icon = icon.get(&plain_file("file.txt"));
    assert_eq!(icon, "");
}

#[test]
fn get_default_file_icon() {
    let icon = Icons::new(false, IconOption::Always, FlagTheme::Fancy, " ".to_string());
    let icon_str = icon.get(&plain_file("file"));
    assert_eq!(icon_str, "\u{f016} "); //
}

#[test]
fn get_default_file_icon_unicode() {
    let icon = Icons::new(
        false,
        IconOption::Always,
        FlagTheme::Unicode,
        " ".to_string(),
    );
    let icon_str = icon.get(&plain_file("file"));
    assert_eq!(icon_str, format!("{}{}", "\u{1f4c4}", icon.icon_separator));
}

#[test]
fn get_directory_icon() {
    let icon = Icons::new(false, IconOption::Always, FlagTheme::Fancy, " ".to_string());
    let icon_str = icon.get(&Name::new("tmp".to_string(), FileType::Directory));
    assert_eq!(icon_str, "\u{f115} "); //
}

#[test]
fn get_directory_icon_unicode() {
    let icon = Icons::new(
        false,
        IconOption::Always,
        FlagTheme::Unicode,
        " ".to_string(),
    );
    let icon_str = icon.get(&Name::new("tmp".to_string(), FileType::Directory));
    assert_eq!(icon_str, format!("{}{}", "\u{1f4c2}", icon.icon_separator));
}

#[test]
fn get_directory_icon_with_ext() {
    let icon = Icons::new(false, IconOption::Always, FlagTheme::Fancy, " ".to_string());
    let icon_str = icon.get(&Name::new("folder.ext".to_string(), FileType::Directory));
    assert_eq!(icon_str, "\u{f115} "); //
}

#[test]
fn get_icon_by_name() {
    let icon = Icons::new(false, IconOption::Always, FlagTheme::Fancy, " ".to_string());
    for (file_name, file_icon) in &IconTheme::get_default_icons_by_name() {
        let icon_str = icon.get(&plain_file(file_name));
        assert_eq!(icon_str, format!("{}{}", file_icon, icon.icon_separator));
    }
}

#[test]
fn get_icon_by_extension() {
    let icon = Icons::new(false, IconOption::Always, FlagTheme::Fancy, " ".to_string());
    for (ext, file_icon) in &IconTheme::get_default_icons_by_extension() {
        let icon_str = icon.get(&plain_file(&format!("file.{}", ext)));
        assert_eq!(icon_str, format!("{}{}", file_icon, icon.icon_separator));
    }
}

#[test]
fn get_icon_uppercase_name_is_folded() {
    // The lookup is case-insensitive: an uppercase name or extension still
    // meets its lowercase table entry.
    let icon = Icons::new(false, IconOption::Always, FlagTheme::Fancy, " ".to_string());
    assert_eq!(icon.get(&plain_file("DOCKERFILE")), "\u{f308} ");
    assert_eq!(icon.get(&plain_file("README.MD")), "\u{f48a} ");
}

#[test]
fn get_symlink_ignores_name() {
    // A symbolic link takes the symlink glyph for its target kind, never a
    // by-name or by-extension glyph.
    let icon = Icons::new(false, IconOption::Always, FlagTheme::Fancy, " ".to_string());
    let link_to_dir = Name::new("dockerfile".to_string(), FileType::SymLink { is_dir: true });
    assert_eq!(icon.get(&link_to_dir), "\u{f482} ");
    let link_to_file = Name::new("readme.md".to_string(), FileType::SymLink { is_dir: false });
    assert_eq!(icon.get(&link_to_file), "\u{f481} ");
}

#[test]
fn get_name_beats_extension() {
    // A full-name entry wins; with only the extension in the table, the
    // extension entry wins.
    let icon = Icons::new(false, IconOption::Always, FlagTheme::Fancy, " ".to_string());
    assert_eq!(icon.get(&plain_file("dockerfile")), "\u{f308} ");
    assert_eq!(icon.get(&plain_file("readme.md")), "\u{f48a} ");
}

#[test]
fn get_exhaustive_fallback() {
    // A regular, non-executable file matching nothing falls back to the
    // generic file glyph; disabling icons yields the empty string for every
    // file type.
    let icon = Icons::new(false, IconOption::Always, FlagTheme::Fancy, " ".to_string());
    assert_eq!(icon.get(&plain_file("zzz.unknownext")), "\u{f016} ");
    let off = Icons::new(true, IconOption::Never, FlagTheme::Fancy, " ".to_string());
    assert_eq!(off.get(&Name::new("tmp".to_string(), FileType::Directory)), "");
    assert_eq!(
        off.get(&Name::new("s".to_string(), FileType::Socket)),
        ""
    );
}

#[test]
fn get_executable_icon() {
    let icon = Icons::new(false, IconOption::Always, FlagTheme::Fancy, " ".to_string());
    let exe = Name::new("runme".to_string(), FileType::File { executable: true });
    assert_eq!(icon.get(&exe), "\u{f489} ");
}

#[test]
fn get_special_category_icons() {
    let icon = Icons::new(false, IconOption::Always, FlagTheme::Fancy, " ".to_string());
    assert_eq!(
        icon.get(&Name::new("s".to_string(), FileType::Socket)),
        "\u{f6a7} "
    );
    assert_eq!(
        icon.get(&Name::new("p".to_string(), FileType::Pipe)),
        "\u{f731} "
    );
}

#[test]
fn get_dotfile_rules() {
    // A dotfile with no further dot has no extractable extension: it meets
    // its by-name entry where one exists, else the category default.
    let icon = Icons::new(false, IconOption::Always, FlagTheme::Fancy, " ".to_string());
    assert_eq!(icon.get(&plain_file(".gitignore")), "\u{f1d3} ");
    assert_eq!(icon.get(&plain_file(".bashrc")), "\u{f016} ");
}

#[test]
fn get_auto_needs_tty() {
    let off = Icons::new(false, IconOption::Auto, FlagTheme::Fancy, " ".to_string());
    assert_eq!(off.get(&plain_file("file")), "");
    let on = Icons::new(true, IconOption::Auto, FlagTheme::Fancy, " ".to_string());
    assert_eq!(on.get(&plain_file("file")), "\u{f016} ");
}
