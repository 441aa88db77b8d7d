//! What holds of every configuration, proved from the definitions.

use vstd::prelude::*;

use crate::config::{ConfigView, DISCORD_TOKEN_KEY, TELEGRAM_TOKEN_KEY};
use crate::document::all_text;
use crate::error::ConfigError;

verus! {

/// The two token keys are different strings.
pub proof fn lemma_token_keys_differ()
    ensures
        DISCORD_TOKEN_KEY@ != TELEGRAM_TOKEN_KEY@,
{
    reveal_strlit("discord_token");
    reveal_strlit("telegram_token");
    assert(DISCORD_TOKEN_KEY@.len() == 13);
    assert(TELEGRAM_TOKEN_KEY@.len() == 14);
}

/// The table that a configuration is written as holds a token's key exactly
/// when the token is set, then with the token as a string; it holds strings
/// only, and no other key.
pub proof fn lemma_written_entries(config: ConfigView)
    ensures
        config.entries().dom().contains(DISCORD_TOKEN_KEY@) <==> config.discord_token is Some,
        config.entries().dom().contains(TELEGRAM_TOKEN_KEY@) <==> config.telegram_token is Some,
        config.discord_token matches Some(token) ==> config.entries()[DISCORD_TOKEN_KEY@] == Some(
            token,
        ),
        config.telegram_token matches Some(token) ==> config.entries()[TELEGRAM_TOKEN_KEY@]
            == Some(token),
        forall|key: Seq<char>| #[trigger]
            config.entries().dom().contains(key) ==> key == DISCORD_TOKEN_KEY@ || key
                == TELEGRAM_TOKEN_KEY@,
        all_text(config.entries()),
{
    lemma_token_keys_differ();
}

/// Writing a configuration as a table and reading the table gives the
/// configuration back: a token that is set comes back with the same text, the
/// empty text included, and a token that is unset comes back unset.
///
/// This is the library's share of a round trip through text. The other share,
/// that the TOML reader finds in a text the table that the TOML writer wrote
/// it from, is `toml`'s to keep and is not stated here.
pub proof fn lemma_table_round_trip(config: ConfigView)
    ensures
        ConfigView::from_entries(config.entries()) == Ok::<ConfigView, ConfigError>(config),
{
    lemma_written_entries(config);
}

/// Two configurations that are written as the same table are the same.
pub proof fn lemma_entries_injective(first: ConfigView, second: ConfigView)
    requires
        first.entries() == second.entries(),
    ensures
        first == second,
{
    lemma_table_round_trip(first);
    lemma_table_round_trip(second);
}

/// A key other than the two token keys has no influence on how a table is
/// read.
pub proof fn lemma_other_keys_ignored(
    entries: Map<Seq<char>, Option<Seq<char>>>,
    key: Seq<char>,
    value: Option<Seq<char>>,
)
    requires
        key != DISCORD_TOKEN_KEY@,
        key != TELEGRAM_TOKEN_KEY@,
    ensures
        ConfigView::from_entries(entries.insert(key, value)) == ConfigView::from_entries(entries),
        ConfigView::from_entries(entries.remove(key)) == ConfigView::from_entries(entries),
{
}

/// Reading a table fails exactly when it holds something other than a string
/// under a token key, and then with [`ConfigError::Parse`].
pub proof fn lemma_read_fails_on_other_types(entries: Map<Seq<char>, Option<Seq<char>>>)
    ensures
        ConfigView::from_entries(entries) is Err <==> (entries.dom().contains(DISCORD_TOKEN_KEY@)
            && entries[DISCORD_TOKEN_KEY@] is None) || (entries.dom().contains(
            TELEGRAM_TOKEN_KEY@,
        ) && entries[TELEGRAM_TOKEN_KEY@] is None),
        ConfigView::from_entries(entries) matches Err(error) ==> error == ConfigError::Parse,
{
}

/// Where neither environment variable contributes a text, the overlay leaves
/// the configuration as it is.
pub proof fn lemma_env_absent_is_identity(config: ConfigView)
    ensures
        config.with_env(None, None) == config,
{
}

/// A text from the environment takes the place of the token, whatever the
/// token was, and a variable that contributes nothing leaves its token as it
/// is; neither token depends on the other's variable.
pub proof fn lemma_env_takes_precedence(
    config: ConfigView,
    discord: Option<Seq<char>>,
    telegram: Option<Seq<char>>,
)
    ensures
        discord is Some ==> config.with_env(discord, telegram).discord_token == discord,
        discord is None ==> config.with_env(discord, telegram).discord_token
            == config.discord_token,
        telegram is Some ==> config.with_env(discord, telegram).telegram_token == telegram,
        telegram is None ==> config.with_env(discord, telegram).telegram_token
            == config.telegram_token,
{
}

/// Overlaying the same environment twice is the same as overlaying it once.
pub proof fn lemma_env_idempotent(
    config: ConfigView,
    discord: Option<Seq<char>>,
    telegram: Option<Seq<char>>,
)
    ensures
        config.with_env(discord, telegram).with_env(discord, telegram) == config.with_env(
            discord,
            telegram,
        ),
{
}

} // verus!
