use oxker_args::base_url_map::BaseUrlMap;
use oxker_args::split::{split_at_separator, SEPARATOR};
use oxker_args::{CliArgs, ConfigError};

fn parse(token: &str) -> Result<BaseUrlMap, ConfigError> {
    CliArgs::parse_base_url_map_input(token)
}

#[test]
fn separator_is_a_semicolon() {
    assert_eq!(SEPARATOR, ';');
}

#[test]
fn split_cuts_at_the_first_separator_only() {
    assert_eq!(split_at_separator("a;b;c"), Some(("a", "b;c")));
    assert_eq!(split_at_separator("name;foo"), Some(("name", "foo")));
}

#[test]
fn split_without_separator_is_none() {
    assert_eq!(split_at_separator("name"), None);
    assert_eq!(split_at_separator(""), None);
    assert_eq!(split_at_separator("a:b,c"), None);
}

#[test]
fn split_keeps_empty_parts() {
    assert_eq!(split_at_separator(";"), Some(("", "")));
    assert_eq!(split_at_separator(";x"), Some(("", "x")));
    assert_eq!(split_at_separator("x;"), Some(("x", "")));
    assert_eq!(split_at_separator(";;"), Some(("", ";")));
}

#[test]
fn split_counts_characters_not_bytes() {
    assert_eq!(split_at_separator("caf\u{e9};\u{65e5}\u{672c}"), Some(("caf\u{e9}", "\u{65e5}\u{672c}")));
    assert_eq!(split_at_separator("\u{1f433}\u{1f433};x"), Some(("\u{1f433}\u{1f433}", "x")));
    assert_eq!(split_at_separator("\u{1f433}"), None);
}

#[test]
fn name_token_sets_name_only() {
    let entry = parse("name;foo;http://x").unwrap();
    assert_eq!(entry.name, Some("foo".to_string()));
    assert_eq!(entry.image, None);
    assert_eq!(entry.label, None);
    assert_eq!(entry.base_url, "http://x");
}

#[test]
fn image_token_sets_image_only() {
    let entry = parse("image;bar;http://y").unwrap();
    assert_eq!(entry.name, None);
    assert_eq!(entry.image, Some("bar".to_string()));
    assert_eq!(entry.label, None);
    assert_eq!(entry.base_url, "http://y");
}

#[test]
fn label_token_sets_label_only() {
    let entry = parse("label;baz;http://z").unwrap();
    assert_eq!(entry.name, None);
    assert_eq!(entry.image, None);
    assert_eq!(entry.label, Some("baz".to_string()));
    assert_eq!(entry.base_url, "http://z");
}

#[test]
fn unknown_selector_is_a_selector_error() {
    let err = parse("bogus;foo;http://x").unwrap_err();
    assert_eq!(err, ConfigError::MapSelector);
    assert!(err.message().contains("name|image|label;value;base_url"));
    assert!(err.message().contains("\"-m\""));
}

#[test]
fn missing_url_is_a_url_error() {
    let err = parse("name;foo").unwrap_err();
    assert_eq!(err, ConfigError::MapUrl);
    assert!(err.message().contains("url"));
    assert_ne!(err.message(), ConfigError::MapSelector.message());
}

#[test]
fn missing_url_is_reported_for_each_selector() {
    assert_eq!(parse("image;foo").unwrap_err(), ConfigError::MapUrl);
    assert_eq!(parse("label;foo").unwrap_err(), ConfigError::MapUrl);
    assert_eq!(parse("name;").unwrap_err(), ConfigError::MapUrl);
}

#[test]
fn selector_is_judged_before_the_url() {
    assert_eq!(parse("bogus;foo").unwrap_err(), ConfigError::MapSelector);
    assert_eq!(parse("bogus").unwrap_err(), ConfigError::MapSelector);
    assert_eq!(parse("bogus;a;b;c;d").unwrap_err(), ConfigError::MapSelector);
}

#[test]
fn empty_token_is_a_selector_error() {
    assert_eq!(parse("").unwrap_err(), ConfigError::MapSelector);
    assert_eq!(parse(";").unwrap_err(), ConfigError::MapSelector);
    assert_eq!(parse(";foo;http://x").unwrap_err(), ConfigError::MapSelector);
}

#[test]
fn selector_word_alone_is_a_url_error() {
    assert_eq!(parse("name").unwrap_err(), ConfigError::MapUrl);
    assert_eq!(parse("image").unwrap_err(), ConfigError::MapUrl);
    assert_eq!(parse("label").unwrap_err(), ConfigError::MapUrl);
}

#[test]
fn selector_word_must_match_letter_for_letter() {
    assert_eq!(parse("Name;foo;http://x").unwrap_err(), ConfigError::MapSelector);
    assert_eq!(parse("names;foo;http://x").unwrap_err(), ConfigError::MapSelector);
    assert_eq!(parse(" name;foo;http://x").unwrap_err(), ConfigError::MapSelector);
    assert_eq!(parse("name ;foo;http://x").unwrap_err(), ConfigError::MapSelector);
    assert_eq!(parse("nam;foo;http://x").unwrap_err(), ConfigError::MapSelector);
}

#[test]
fn selector_word_must_come_first() {
    assert_eq!(parse("foo;name;http://x").unwrap_err(), ConfigError::MapSelector);
    assert_eq!(parse("http://x;foo;name").unwrap_err(), ConfigError::MapSelector);
}

#[test]
fn value_and_url_may_be_empty() {
    let entry = parse("name;;").unwrap();
    assert_eq!(entry.name, Some(String::new()));
    assert_eq!(entry.image, None);
    assert_eq!(entry.label, None);
    assert_eq!(entry.base_url, "");

    let entry = parse("label;;http://z").unwrap();
    assert_eq!(entry.label, Some(String::new()));
    assert_eq!(entry.base_url, "http://z");

    let entry = parse("image;bar;").unwrap();
    assert_eq!(entry.image, Some("bar".to_string()));
    assert_eq!(entry.base_url, "");
}

#[test]
fn url_keeps_further_separators() {
    let entry = parse("name;foo;http://x;y;z").unwrap();
    assert_eq!(entry.name, Some("foo".to_string()));
    assert_eq!(entry.base_url, "http://x;y;z");

    let entry = parse("image;bar;;").unwrap();
    assert_eq!(entry.image, Some("bar".to_string()));
    assert_eq!(entry.base_url, ";");
}

#[test]
fn value_is_not_interpreted() {
    let entry = parse("image;name;label").unwrap();
    assert_eq!(entry.name, None);
    assert_eq!(entry.image, Some("name".to_string()));
    assert_eq!(entry.label, None);
    assert_eq!(entry.base_url, "label");
}

#[test]
fn token_with_wide_characters() {
    let entry = parse("label;caf\u{e9}=\u{1f433};https://\u{65e5}\u{672c}.example/").unwrap();
    assert_eq!(entry.label, Some("caf\u{e9}=\u{1f433}".to_string()));
    assert_eq!(entry.base_url, "https://\u{65e5}\u{672c}.example/");
}

#[test]
fn list_keeps_the_order_of_its_tokens() {
    let tokens = vec![
        "label;baz;http://z".to_string(),
        "name;foo;http://x".to_string(),
        "image;bar;http://y".to_string(),
        "name;foo2;http://x2".to_string(),
    ];
    let entries = CliArgs::parse_base_url_map(&tokens).unwrap();
    assert_eq!(entries.len(), 4);
    assert_eq!(entries[0].label, Some("baz".to_string()));
    assert_eq!(entries[0].base_url, "http://z");
    assert_eq!(entries[1].name, Some("foo".to_string()));
    assert_eq!(entries[1].base_url, "http://x");
    assert_eq!(entries[2].image, Some("bar".to_string()));
    assert_eq!(entries[2].base_url, "http://y");
    assert_eq!(entries[3].name, Some("foo2".to_string()));
    assert_eq!(entries[3].base_url, "http://x2");
}

#[test]
fn list_keeps_repeated_tokens() {
    let tokens = vec!["name;foo;http://x".to_string(), "name;foo;http://x".to_string()];
    let entries = CliArgs::parse_base_url_map(&tokens).unwrap();
    assert_eq!(entries.len(), 2);
    assert_eq!(entries[0].name, entries[1].name);
    assert_eq!(entries[0].base_url, entries[1].base_url);
}

#[test]
fn empty_list_gives_no_entries() {
    let entries = CliArgs::parse_base_url_map(&Vec::new()).unwrap();
    assert!(entries.is_empty());
}

#[test]
fn list_fails_with_the_error_of_its_first_bad_token() {
    let tokens = vec![
        "name;foo;http://x".to_string(),
        "image;bar".to_string(),
        "bogus;baz;http://z".to_string(),
    ];
    assert_eq!(CliArgs::parse_base_url_map(&tokens).unwrap_err(), ConfigError::MapUrl);

    let tokens = vec![
        "name;foo;http://x".to_string(),
        "bogus;baz;http://z".to_string(),
        "image;bar".to_string(),
    ];
    assert_eq!(CliArgs::parse_base_url_map(&tokens).unwrap_err(), ConfigError::MapSelector);
}

#[test]
fn one_bad_token_spoils_the_list() {
    let tokens = vec![
        "name;foo;http://x".to_string(),
        "label;baz;http://z".to_string(),
        "images;bar;http://y".to_string(),
    ];
    assert_eq!(CliArgs::parse_base_url_map(&tokens).unwrap_err(), ConfigError::MapSelector);
}
