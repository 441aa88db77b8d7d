//! The ways in which loading or storing a configuration fails.

use vstd::prelude::*;
use vstd::std_specs::convert::FromSpecImpl;

verus! {

/// `std::io::Error`, the reason why a file or the working directory could
/// not be read or written. Opaque here.
#[verifier::external_type_specification]
#[verifier::external_body]
pub struct ExIoError(std::io::Error);

/// `std::num::ParseIntError`, the reason why a string was not read as a
/// number. Opaque here.
#[verifier::external_type_specification]
#[verifier::external_body]
pub struct ExParseIntError(std::num::ParseIntError);

/// Why an operation on a configuration failed. The cause reported by the
/// underlying library is dropped: only the kind of failure is kept.
#[derive(Debug, Clone, Copy, PartialEq, Eq, Structural)]
pub enum ConfigError {
    /// The text is not a TOML document, or a token in it is not a string.
    Parse,
    /// A value given as text, such as that of an environment variable, could
    /// not be read as a number.
    StringParse,
    /// The configuration could not be written as TOML.
    Serialize,
    /// A file or the working directory could not be read or written.
    IO,
}

impl ConfigError {
    /// The text shown to a user for each kind of failure.
    pub open spec fn message_spec(self) -> Seq<char> {
        match self {
            ConfigError::Parse => "Failed to parse config from string"@,
            ConfigError::StringParse => "Failed to parse environment variable"@,
            ConfigError::Serialize => "Failed to serialize Config to TOML"@,
            ConfigError::IO => "Failed to write file"@,
        }
    }

    /// A one-line description of the failure.
    pub fn message(&self) -> (text: &'static str)
        ensures
            text@ == self.message_spec(),
    {
        match self {
            ConfigError::Parse => "Failed to parse config from string",
            ConfigError::StringParse => "Failed to parse environment variable",
            ConfigError::Serialize => "Failed to serialize Config to TOML",
            ConfigError::IO => "Failed to write file",
        }
    }
}

impl From<toml::ser::Error> for ConfigError {
    /// A failure to write TOML is a [`ConfigError::Serialize`].
    fn from(error: toml::ser::Error) -> (converted: ConfigError) {
        ConfigError::Serialize
    }
}

impl FromSpecImpl<toml::ser::Error> for ConfigError {
    open spec fn obeys_from_spec() -> bool {
        true
    }

    open spec fn from_spec(error: toml::ser::Error) -> ConfigError {
        ConfigError::Serialize
    }
}

impl From<std::io::Error> for ConfigError {
    /// A failure of the file system is a [`ConfigError::IO`].
    fn from(error: std::io::Error) -> (converted: ConfigError) {
        ConfigError::IO
    }
}

impl FromSpecImpl<std::io::Error> for ConfigError {
    open spec fn obeys_from_spec() -> bool {
        true
    }

    open spec fn from_spec(error: std::io::Error) -> ConfigError {
        ConfigError::IO
    }
}

impl From<std::num::ParseIntError> for ConfigError {
    /// A failure to read a number is a [`ConfigError::StringParse`].
    fn from(error: std::num::ParseIntError) -> (converted: ConfigError) {
        ConfigError::StringParse
    }
}

impl FromSpecImpl<std::num::ParseIntError> for ConfigError {
    open spec fn obeys_from_spec() -> bool {
        true
    }

    open spec fn from_spec(error: std::num::ParseIntError) -> ConfigError {
        ConfigError::StringParse
    }
}

} // verus!
