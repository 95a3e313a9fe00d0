use lsd::config_file::Config;
use lsd::flags::display::Display;
use lsd::flags::Args;

#[test]
fn test_from_arg_matches_none() {
    let args = Args::with_none();
    assert_eq!(None, Display::from_arg_matches(&args));
}

#[test]
fn test_from_arg_matches_all() {
    let mut args = Args::with_none();
    args.all = true;
    assert_eq!(Some(Display::All), Display::from_arg_matches(&args));
}

#[test]
fn test_from_arg_matches_almost_all() {
    let mut args = Args::with_none();
    args.almost_all = true;
    assert_eq!(Some(Display::AlmostAll), Display::from_arg_matches(&args));
}

#[test]
fn test_from_arg_matches_directory_only() {
    let mut args = Args::with_none();
    args.directory_only = true;
    assert_eq!(
        Some(Display::DirectoryItself),
        Display::from_arg_matches(&args)
    );
}

#[test]
fn test_from_config_none() {
    assert_eq!(None, Display::from_config(&Config::with_none()));
}

#[test]
fn test_from_config_all() {
    let mut c = Config::with_none();
    c.display = Some("all".into());
    assert_eq!(Some(Display::All), Display::from_config(&c));
}

#[test]
fn test_from_config_almost_all() {
    let mut c = Config::with_none();
    c.display = Some("almost-all".into());
    assert_eq!(Some(Display::AlmostAll), Display::from_config(&c));
}

#[test]
fn test_from_config_directory_only() {
    let mut c = Config::with_none();
    c.display = Some("directory-only".into());
    assert_eq!(Some(Display::DirectoryItself), Display::from_config(&c));
}

#[test]
fn test_from_config_unknown_value() {
    let mut c = Config::with_none();
    c.display = Some("everything".into());
    assert_eq!(None, Display::from_config(&c));
}

#[test]
fn test_from_str_values() {
    assert_eq!(Some(Display::All), Display::from_str("all"));
    assert_eq!(Some(Display::AlmostAll), Display::from_str("almost-all"));
    assert_eq!(
        Some(Display::DirectoryItself),
        Display::from_str("directory-only")
    );
    assert_eq!(None, Display::from_str("directory"));
}
