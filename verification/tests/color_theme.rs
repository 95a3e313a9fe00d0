use lsd::config_file::Config;
use lsd::flags::theme::ColorTheme;
use lsd::flags::Args;

#[test]
fn test_color_theme_from_arg_matches_none() {
    let args = Args::with_none();
    assert_eq!(None, ColorTheme::from_arg_matches(&args));
}

#[test]
fn test_color_theme_from_arg_matches_ok() {
    let mut args = Args::with_none();
    args.color_theme = Some("theme-ok.yaml".into());
    assert_eq!(
        Some(ColorTheme {
            path: "theme-ok.yaml".into()
        }),
        ColorTheme::from_arg_matches(&args)
    );
}

#[test]
fn test_color_theme_from_config_none() {
    assert_eq!(None, ColorTheme::from_config(&Config::with_none()));
}

#[test]
fn test_color_theme_from_config_empty() {
    let c = Config::with_yaml("---").unwrap();
    assert_eq!(None, ColorTheme::from_config(&c));
}

#[test]
fn test_color_theme_from_config_ok() {
    let c = Config::with_yaml("color:\n  theme: theme-ok.yaml").unwrap();
    assert_eq!(
        Some(ColorTheme {
            path: "theme-ok.yaml".into()
        }),
        ColorTheme::from_config(&c)
    );
}

#[test]
fn test_color_theme_default() {
    assert_eq!(
        ColorTheme {
            path: "theme.yaml".into()
        },
        ColorTheme::default()
    );
}
