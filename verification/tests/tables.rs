use oscuro_config::document::Field;
use oscuro_config::{Config, ConfigError};

fn tokens(discord: Option<&str>, telegram: Option<&str>) -> Config {
    Config {
        discord_token: discord.map(str::to_string),
        telegram_token: telegram.map(str::to_string),
    }
}

fn text(value: &str) -> toml::Value {
    toml::Value::String(value.to_string())
}

#[test]
fn to_table_holds_each_set_token_as_a_string() {
    let table = tokens(Some("abc123"), Some("xyz789")).to_table();
    assert_eq!(table.len(), 2);
    assert_eq!(table.get("discord_token"), Some(&text("abc123")));
    assert_eq!(table.get("telegram_token"), Some(&text("xyz789")));
}

#[test]
fn to_table_has_no_entry_for_an_unset_token() {
    let table = tokens(None, Some("xyz789")).to_table();
    assert_eq!(table.len(), 1);
    assert!(!table.contains_key("discord_token"));
    assert_eq!(table.get("telegram_token"), Some(&text("xyz789")));
}

#[test]
fn to_table_of_unset_tokens_is_empty() {
    assert!(tokens(None, None).to_table().is_empty());
}

#[test]
fn to_table_of_the_default_holds_two_empty_strings() {
    let table = Config::default().to_table();
    assert_eq!(table.len(), 2);
    assert_eq!(table.get("discord_token"), Some(&text("")));
    assert_eq!(table.get("telegram_token"), Some(&text("")));
}

#[test]
fn from_table_reads_strings_under_the_token_keys() {
    let mut table = toml::Table::new();
    table.insert("discord_token".to_string(), text("abc123"));
    table.insert("telegram_token".to_string(), text("xyz789"));
    assert_eq!(Config::from_table(&table), Ok(tokens(Some("abc123"), Some("xyz789"))));
}

#[test]
fn from_table_of_an_empty_table_leaves_both_tokens_unset() {
    assert_eq!(Config::from_table(&toml::Table::new()), Ok(tokens(None, None)));
}

#[test]
fn from_table_ignores_other_keys_whatever_they_hold() {
    let mut table = toml::Table::new();
    table.insert("telegram_token".to_string(), text("xyz789"));
    table.insert("retries".to_string(), toml::Value::Integer(3));
    table.insert("nested".to_string(), toml::Value::Table(toml::Table::new()));
    table.insert("discord".to_string(), text("not the key"));
    assert_eq!(Config::from_table(&table), Ok(tokens(None, Some("xyz789"))));
}

#[test]
fn from_table_fails_on_a_token_of_another_type() {
    for value in [
        toml::Value::Integer(5),
        toml::Value::Boolean(false),
        toml::Value::Array(vec![text("abc123")]),
        toml::Value::Table(toml::Table::new()),
    ] {
        let mut table = toml::Table::new();
        table.insert("discord_token".to_string(), value.clone());
        assert_eq!(Config::from_table(&table), Err(ConfigError::Parse));

        let mut table = toml::Table::new();
        table.insert("discord_token".to_string(), text("abc123"));
        table.insert("telegram_token".to_string(), value);
        assert_eq!(Config::from_table(&table), Err(ConfigError::Parse));
    }
}

#[test]
fn table_round_trip_gives_the_configuration_back() {
    for config in [
        tokens(Some("abc123"), Some("xyz789")),
        tokens(Some(""), Some("")),
        tokens(Some("abc123"), None),
        tokens(None, Some("")),
        tokens(None, None),
    ] {
        assert_eq!(Config::from_table(&config.to_table()), Ok(config));
    }
}

#[test]
fn field_token_of_a_missing_key_is_unset() {
    assert_eq!(Field::Missing.token(), Ok(None));
}

#[test]
fn field_token_of_a_string_is_its_text() {
    assert_eq!(Field::Text("abc123".to_string()).token(), Ok(Some("abc123".to_string())));
    assert_eq!(Field::Text(String::new()).token(), Ok(Some(String::new())));
}

#[test]
fn field_token_of_another_type_fails() {
    assert_eq!(Field::Other.token(), Err(ConfigError::Parse));
}
