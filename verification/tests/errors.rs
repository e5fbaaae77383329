use oxker_args::ConfigError;

#[test]
fn selector_message() {
    assert_eq!(
        ConfigError::MapSelector.message(),
        "Couldn't parse type, \"-m\" argument needs to be in the format \"name|image|label;value;base_url\""
    );
}

#[test]
fn url_message() {
    assert_eq!(
        ConfigError::MapUrl.message(),
        "Couldn't parse url, \"-m\" argument needs to be in the format \"name|image|label;value;input_url\""
    );
}

#[test]
fn interval_message() {
    assert_eq!(ConfigError::ZeroInterval.message(), "\"-d\" argument needs to be greater than 0");
}

#[test]
fn messages_differ() {
    let all = [ConfigError::MapSelector, ConfigError::MapUrl, ConfigError::ZeroInterval];
    for (i, a) in all.iter().enumerate() {
        for (j, b) in all.iter().enumerate() {
            assert_eq!(i == j, a.message() == b.message());
            assert_eq!(i == j, a == b);
        }
    }
}

#[test]
fn every_error_exits_with_one() {
    assert_eq!(ConfigError::MapSelector.exit_code(), 1);
    assert_eq!(ConfigError::MapUrl.exit_code(), 1);
    assert_eq!(ConfigError::ZeroInterval.exit_code(), 1);
}
