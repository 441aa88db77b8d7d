//! The configuration value, its defaults, and the overlay of the environment.

use std::str::FromStr;
use vstd::prelude::*;

use crate::document::{
    read_table, table_entries, table_field, table_insert_text, table_new, toml_document,
    toml_text, write_table, Field,
};
use crate::error::ConfigError;

verus! {

/// Key of the Discord token in the TOML document.
pub const DISCORD_TOKEN_KEY: &'static str = "discord_token";

/// Key of the Telegram token in the TOML document.
pub const TELEGRAM_TOKEN_KEY: &'static str = "telegram_token";

/// Name of the environment variable that overrides the Discord token.
pub const DISCORD_TOKEN_VAR: &'static str = "OSCURO_DISCORD_TOKEN";

/// Name of the environment variable that overrides the Telegram token.
pub const TELEGRAM_TOKEN_VAR: &'static str = "OSCURO_TELEGRAM_TOKEN";

/// Name of the directory, under the working directory, that holds persisted
/// state in a debug build.
pub const DEBUG_DATA_SUBDIR: &'static str = "temp";

/// The tokens of the bot. A token that is unset and a token that is the empty
/// string both mean that none is configured, but they are different values
/// and are written differently.
#[derive(Debug, Clone, PartialEq, Eq)]
pub struct Config {
    pub discord_token: Option<String>,
    pub telegram_token: Option<String>,
}

/// A configuration as a mathematical value: each token as the sequence of its
/// characters.
pub struct ConfigView {
    pub discord_token: Option<Seq<char>>,
    pub telegram_token: Option<Seq<char>>,
}

impl View for Config {
    type V = ConfigView;

    open spec fn view(&self) -> ConfigView {
        ConfigView {
            discord_token: self.discord_token.deep_view(),
            telegram_token: self.telegram_token.deep_view(),
        }
    }
}

/// What reading one environment variable gave.
#[derive(Debug, Clone, PartialEq, Eq)]
pub enum EnvVar {
    /// The variable is not set.
    Unset,
    /// The variable is set, but its value is not valid Unicode.
    NotUnicode,
    /// The variable is set to this text.
    Value(String),
}

impl EnvVar {
    /// The text that the variable contributes: its value where it has a
    /// readable one, nothing otherwise.
    pub open spec fn text(self) -> Option<Seq<char>> {
        match self {
            EnvVar::Value(text) => Some(text@),
            EnvVar::Unset | EnvVar::NotUnicode => None,
        }
    }
}

/// How the program was built.
#[derive(Debug, Clone, Copy, PartialEq, Eq, Structural)]
pub enum BuildProfile {
    /// A development build.
    Debug,
    /// A production build.
    Release,
}

/// A token after the overlay: the text from the environment where there is
/// one, the token as it was otherwise.
pub open spec fn overlaid(token: Option<Seq<char>>, from_env: Option<Seq<char>>) -> Option<
    Seq<char>,
> {
    match from_env {
        Some(text) => Some(text),
        None => token,
    }
}

/// The token that a table gives under `key`: unset where the table has no such
/// key, the text where the value is a string, and a failure where the value is
/// of another type.
pub open spec fn token_at(entries: Map<Seq<char>, Option<Seq<char>>>, key: Seq<char>) -> Result<
    Option<Seq<char>>,
    ConfigError,
> {
    if !entries.dom().contains(key) {
        Ok(None)
    } else {
        match entries[key] {
            Some(text) => Ok(Some(text)),
            None => Err(ConfigError::Parse),
        }
    }
}

/// `entries` and, where the token is set, the token as a string under `key`.
pub open spec fn with_token(
    entries: Map<Seq<char>, Option<Seq<char>>>,
    key: Seq<char>,
    token: Option<Seq<char>>,
) -> Map<Seq<char>, Option<Seq<char>>> {
    match token {
        Some(text) => entries.insert(key, Some(text)),
        None => entries,
    }
}

impl ConfigView {
    /// The entries of the table that this configuration is written as: one
    /// string for each token that is set, under the token's key, and nothing
    /// for a token that is unset.
    pub open spec fn entries(self) -> Map<Seq<char>, Option<Seq<char>>> {
        with_token(
            with_token(Map::empty(), DISCORD_TOKEN_KEY@, self.discord_token),
            TELEGRAM_TOKEN_KEY@,
            self.telegram_token,
        )
    }

    /// The configuration that a table with these entries is read as. Keys
    /// other than the two token keys are ignored. A token key whose value is
    /// not a string makes the table unreadable.
    pub open spec fn from_entries(entries: Map<Seq<char>, Option<Seq<char>>>) -> Result<
        ConfigView,
        ConfigError,
    > {
        match (token_at(entries, DISCORD_TOKEN_KEY@), token_at(entries, TELEGRAM_TOKEN_KEY@)) {
            (Ok(discord_token), Ok(telegram_token)) => Ok(
                ConfigView { discord_token, telegram_token },
            ),
            _ => Err(ConfigError::Parse),
        }
    }

    /// The configuration that a text is read as, given the entries of the
    /// document that the TOML reader finds in it, or `None` where it finds no
    /// document.
    pub open spec fn from_document(document: Option<Map<Seq<char>, Option<Seq<char>>>>) -> Result<
        ConfigView,
        ConfigError,
    > {
        match document {
            Some(entries) => ConfigView::from_entries(entries),
            None => Err(ConfigError::Parse),
        }
    }

    /// The configuration that default construction gives: both tokens set,
    /// to the empty string.
    pub open spec fn initial() -> ConfigView {
        ConfigView { discord_token: Some(Seq::empty()), telegram_token: Some(Seq::empty()) }
    }

    /// The configuration in which both tokens are unset.
    pub open spec fn unset() -> ConfigView {
        ConfigView { discord_token: None, telegram_token: None }
    }

    /// This configuration with each token overlaid by what its environment
    /// variable contributes.
    pub open spec fn with_env(
        self,
        discord: Option<Seq<char>>,
        telegram: Option<Seq<char>>,
    ) -> ConfigView {
        ConfigView {
            discord_token: overlaid(self.discord_token, discord),
            telegram_token: overlaid(self.telegram_token, telegram),
        }
    }
}

impl BuildProfile {
    /// The directory under the working directory that holds persisted state,
    /// or `None` where the working directory itself holds it.
    pub open spec fn data_subdir(self) -> Option<Seq<char>> {
        match self {
            BuildProfile::Debug => Some(DEBUG_DATA_SUBDIR@),
            BuildProfile::Release => None,
        }
    }
}

impl Field {
    /// The token that this field stands for: unset for a missing key, the text
    /// of a string, and a failure for a value of another type.
    pub open spec fn token_spec(self) -> Result<Option<Seq<char>>, ConfigError> {
        match self {
            Field::Missing => Ok(None),
            Field::Text(text) => Ok(Some(text@)),
            Field::Other => Err(ConfigError::Parse),
        }
    }

    /// Reads the field as a token.
    pub fn token(self) -> (token: Result<Option<String>, ConfigError>)
        ensures
            match token {
                Ok(text) => self.token_spec() == Ok::<Option<Seq<char>>, ConfigError>(
                    text.deep_view(),
                ),
                Err(error) => self.token_spec() == Err::<Option<Seq<char>>, ConfigError>(error),
            },
    {
        match self {
            Field::Missing => Ok(None),
            Field::Text(text) => Ok(Some(text)),
            Field::Other => Err(ConfigError::Parse),
        }
    }
}

impl Config {
    /// The outcome of reading a configuration, with the configuration taken
    /// by its view.
    pub open spec fn view_result(result: Result<Config, ConfigError>) -> Result<
        ConfigView,
        ConfigError,
    > {
        match result {
            Ok(config) => Ok(config@),
            Err(error) => Err(error),
        }
    }

    /// The table that this configuration is written as: each token that is
    /// set as a string under its key, nothing for a token that is unset.
    pub fn to_table(&self) -> (table: toml::Table)
        ensures
            table_entries(table) == self@.entries(),
    {
        let mut table = table_new();
        if let Some(token) = &self.discord_token {
            table_insert_text(&mut table, DISCORD_TOKEN_KEY.to_owned(), token.clone());
        }
        if let Some(token) = &self.telegram_token {
            table_insert_text(&mut table, TELEGRAM_TOKEN_KEY.to_owned(), token.clone());
        }
        table
    }

    /// Reads a configuration from a table. A token is unset where the table
    /// lacks its key; other keys are ignored. Fails with
    /// [`ConfigError::Parse`] exactly when the value under a token key is not
    /// a string.
    pub fn from_table(table: &toml::Table) -> (result: Result<Config, ConfigError>)
        ensures
            Config::view_result(result) == ConfigView::from_entries(table_entries(*table)),
    {
        let discord = table_field(table, DISCORD_TOKEN_KEY).token();
        let telegram = table_field(table, TELEGRAM_TOKEN_KEY).token();
        match (discord, telegram) {
            (Ok(discord_token), Ok(telegram_token)) => Ok(Config { discord_token, telegram_token }),
            _ => Err(ConfigError::Parse),
        }
    }

    /// Writes the configuration as a TOML document: the document of the table
    /// that [`Config::to_table`] gives. Fails with [`ConfigError::Serialize`]
    /// exactly when the TOML writer does.
    pub fn to_string(&self) -> (written: Result<String, ConfigError>)
        ensures
            match written {
                Ok(text) => toml_text(self@.entries()) == Some(text@),
                Err(error) => error == ConfigError::Serialize && toml_text(self@.entries())
                    is None,
            },
    {
        let table = self.to_table();
        match write_table(&table) {
            Ok(text) => Ok(text),
            Err(error) => Err(ConfigError::from(error)),
        }
    }

    /// Reads a configuration from what reading its file gave: the contents of
    /// the file, or the reason why it could not be read. Fails with
    /// [`ConfigError::IO`] exactly when the file could not be read, and
    /// otherwise as parsing the contents does.
    pub fn open(contents: Result<String, std::io::Error>) -> (result: Result<Config, ConfigError>)
        ensures
            match contents {
                Ok(text) => Config::view_result(result) == ConfigView::from_document(
                    toml_document(text@),
                ),
                Err(_) => result == Err::<Config, ConfigError>(ConfigError::IO),
            },
    {
        match contents {
            Ok(text) => Config::from_str(text.as_str()),
            Err(error) => Err(ConfigError::from(error)),
        }
    }

    /// Where persisted state lives, relative to the working directory: in the
    /// directory of the returned name under it, or, for `None`, in the working
    /// directory itself.
    pub fn data_dir(profile: BuildProfile) -> (subdir: Option<&'static str>)
        ensures
            subdir.deep_view() == profile.data_subdir(),
    {
        match profile {
            BuildProfile::Debug => Some(DEBUG_DATA_SUBDIR),
            BuildProfile::Release => None,
        }
    }

    /// Overlays the environment: a token whose variable has a readable value
    /// is replaced by that value; a token whose variable is unset, or set to
    /// something that is not valid Unicode, stays as it is.
    pub fn with_env(self, discord: EnvVar, telegram: EnvVar) -> (config: Config)
        ensures
            config@ == self@.with_env(discord.text(), telegram.text()),
            discord.text() is None && telegram.text() is None ==> config@ == self@,
    {
        let mut config = self;
        if let EnvVar::Value(token) = discord {
            config.discord_token = Some(token);
        }
        if let EnvVar::Value(token) = telegram {
            config.telegram_token = Some(token);
        }
        config
    }
}

impl Default for Config {
    /// Both tokens set, to the empty string: not the configuration in which
    /// both are unset.
    fn default() -> (config: Config)
        ensures
            config@ == ConfigView::initial(),
            config@ != ConfigView::unset(),
    {
        Config { discord_token: Some(String::new()), telegram_token: Some(String::new()) }
    }
}

impl FromStr for Config {
    type Err = ConfigError;

    /// Reads a configuration from the text of a TOML document. A token is
    /// unset where the document lacks its key; other keys are ignored. Fails
    /// with [`ConfigError::Parse`] exactly when the text is not a TOML
    /// document or the value under a token key is not a string.
    fn from_str(text: &str) -> (result: Result<Config, ConfigError>)
        ensures
            Config::view_result(result) == ConfigView::from_document(toml_document(text@)),
    {
        match read_table(text) {
            Ok(table) => Config::from_table(&table),
            Err(_) => Err(ConfigError::Parse),
        }
    }
}

} // verus!
