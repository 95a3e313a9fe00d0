use lsd::config_file::Config;
use lsd::flags::color::ColorOption;
use lsd::flags::icons::IconTheme;
use lsd::flags::unrecognized_config_values;
use lsd::flags::Args;
use lsd::flags::Flags;

#[test]
fn test_read_config_ok() {
    let c = Config::with_yaml("classic: true").unwrap();
    println!("{:?}", c);
    assert!(c.classic.unwrap())
}

#[test]
fn test_read_config_bad_bool() {
    // A mistyped field is isolated: the document still parses and the field
    // alone is treated as absent.
    let c = Config::with_yaml("classic: notbool");
    println!("{:?}", c);
    assert!(c.unwrap().classic.is_none())
}

#[test]
fn test_read_config_unparsable() {
    let c = Config::with_yaml("classic: [unclosed");
    assert!(c.is_none())
}

#[test]
fn test_read_config_empty_document() {
    let c = Config::with_yaml("---").unwrap();
    assert!(c.classic.is_none());
    assert!(c.display.is_none());
    assert!(c.sorting.is_none());
}

#[test]
fn test_read_config_sections() {
    let doc = "color:\n  when: never\nicons:\n  when: always\n  theme: unicode\nrecursion:\n  enabled: true\n  depth: 3\nsorting:\n  column: size\n  reverse: true\n  dir-grouping: first\n";
    let c = Config::with_yaml(doc).unwrap();
    assert_eq!(c.color.as_ref().unwrap().when.as_deref(), Some("never"));
    assert_eq!(c.icons.as_ref().unwrap().when.as_deref(), Some("always"));
    assert_eq!(c.icons.as_ref().unwrap().theme.as_deref(), Some("unicode"));
    assert_eq!(c.recursion.as_ref().unwrap().enabled, Some(true));
    assert_eq!(c.recursion.as_ref().unwrap().depth, Some(3));
    let sorting = c.sorting.as_ref().unwrap();
    assert_eq!(sorting.column.as_deref(), Some("size"));
    assert_eq!(sorting.reverse, Some(true));
    assert_eq!(sorting.dir_grouping.as_deref(), Some("first"));
}

#[test]
fn test_read_config_blocks_list() {
    let c = Config::with_yaml("blocks:\n  - permission\n  - name\n").unwrap();
    let blocks = c.blocks.unwrap();
    assert_eq!(blocks, vec!["permission".to_string(), "name".to_string()]);
}

#[test]
fn test_read_config_bad_list_element() {
    // A sequence holding a non-string element is a mismatched field.
    let c = Config::with_yaml("ignore-globs:\n  - .git\n  - 42\n").unwrap();
    assert!(c.ignore_globs.is_none());
}

#[test]
fn test_mismatched_fields_are_named() {
    let doc = "classic: notbool\ncolor: plainstring\nicons:\n  when: 7\nrecursion:\n  depth: -1\nignore-globs: 3\n";
    let (c, mismatched) = Config::with_yaml_report(doc);
    let c = c.unwrap();
    assert!(c.classic.is_none());
    assert!(c.color.is_none());
    assert!(c.icons.as_ref().unwrap().when.is_none());
    assert_eq!(
        mismatched,
        vec![
            "color".to_string(),
            "icons.when".to_string(),
            "recursion.depth".to_string(),
            "classic".to_string(),
            "ignore-globs".to_string(),
        ]
    );
}

#[test]
fn test_zero_depth_is_a_mismatch() {
    // The recursion depth is a positive integer; zero is recorded like any
    // other wrong value and the field stays absent.
    let (c, mismatched) = Config::with_yaml_report("recursion:\n  depth: 0\n");
    assert!(c.unwrap().recursion.unwrap().depth.is_none());
    assert_eq!(mismatched, vec!["recursion.depth".to_string()]);
}

#[test]
fn test_unrecognized_values_are_named() {
    let doc = "display: everything\ncolor:\n  when: sometimes\nicons:\n  theme: fancy\nlayout: grid\nsorting:\n  column: age\n";
    let c = Config::with_yaml(doc).unwrap();
    assert_eq!(
        unrecognized_config_values(&c),
        vec![
            "display".to_string(),
            "color.when".to_string(),
            "sorting.column".to_string(),
        ]
    );
    assert!(unrecognized_config_values(&Config::with_none()).is_empty());
}

#[test]
fn test_default_config_values() {
    let c = Config::default();
    assert_eq!(c.classic, Some(false));
    assert_eq!(c.color.as_ref().unwrap().when.as_deref(), Some("auto"));
    assert_eq!(c.date.as_deref(), Some("date"));
    assert!(c.display.is_none());
    assert_eq!(c.icons.as_ref().unwrap().when.as_deref(), Some("auto"));
    assert_eq!(c.icons.as_ref().unwrap().theme.as_deref(), Some("fancy"));
    assert_eq!(c.layout.as_deref(), Some("grid"));
    assert_eq!(c.size.as_deref(), Some("default"));
    assert_eq!(
        c.sorting.as_ref().unwrap().dir_grouping.as_deref(),
        Some("none")
    );
    assert_eq!(c.symlink_arrow.as_deref(), Some("\u{21d2}"));
    assert_eq!(
        c.blocks.unwrap(),
        vec!["permission", "user", "group", "size", "date", "name"]
    );
}

#[test]
fn test_malformed_field_isolation() {
    // A document with a mistyped field and an otherwise valid one resolves
    // the broken field to its default while still honoring the valid one.
    let c = Config::with_yaml("classic: \"notabool\"\nicons:\n  theme: fancy\n").unwrap();
    assert!(c.classic.is_none());
    let f = Flags::configure_from(&Args::with_none(), &c);
    assert_eq!(f.icon_theme, IconTheme::Fancy);
    // The broken classic field did not activate classic mode.
    assert_eq!(f.color_when, ColorOption::Auto);
}
