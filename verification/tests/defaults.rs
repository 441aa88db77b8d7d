use oscuro_config::config::DEBUG_DATA_SUBDIR;
use oscuro_config::{BuildProfile, Config};

#[test]
fn default_has_both_tokens_set_to_the_empty_string() {
    let config = Config::default();
    assert_eq!(config.discord_token, Some(String::new()));
    assert_eq!(config.telegram_token, Some(String::new()));
}

#[test]
fn default_is_not_the_unset_configuration() {
    let unset = Config { discord_token: None, telegram_token: None };
    assert_ne!(Config::default(), unset);
}

#[test]
fn data_dir_of_a_debug_build_is_temp_under_the_working_directory() {
    assert_eq!(Config::data_dir(BuildProfile::Debug), Some("temp"));
    assert_eq!(DEBUG_DATA_SUBDIR, "temp");
}

#[test]
fn data_dir_of_a_release_build_is_the_working_directory() {
    assert_eq!(Config::data_dir(BuildProfile::Release), None);
}
