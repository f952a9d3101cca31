//! The secrets the bot runs on, checked once at start-up.
use vstd::prelude::*;

verus! {

/// A required secret that is not set.
#[derive(Clone, Copy, Debug, PartialEq, Eq, Structural)]
pub enum ConfigError {
    /// No gateway credential: the bot cannot log in.
    MissingBotToken,
    /// No credential for the completion endpoint.
    MissingApiKey,
}

/// The text reported for each error.
pub open spec fn diagnostic_text(e: ConfigError) -> Seq<char> {
    match e {
        ConfigError::MissingBotToken => "Expected a token in the environment"@,
        ConfigError::MissingApiKey => "Expected a key in the environment"@,
    }
}

impl ConfigError {
    /// A message naming the missing secret, for the operator.
    pub fn diagnostic(&self) -> (r: String)
        ensures
            r@ == diagnostic_text(*self),
    {
        match self {
            ConfigError::MissingBotToken => String::from_str("Expected a token in the environment"),
            ConfigError::MissingApiKey => String::from_str("Expected a key in the environment"),
        }
    }
}

/// The gateway credential, and the completion credential if one was given:
/// the latter is only needed when a completion is asked for.
pub struct Config {
    bot_token: String,
    api_key: Option<String>,
}

/// A configuration as values: the gateway token, then the completion key.
pub type ConfigView = (Seq<char>, Option<Seq<char>>);

/// The view of an optional string.
pub open spec fn opt_view(s: Option<String>) -> Option<Seq<char>> {
    match s {
        Some(v) => Some(v@),
        None => None,
    }
}

impl View for Config {
    type V = ConfigView;

    closed spec fn view(&self) -> ConfigView {
        (self.bot_token@, opt_view(self.api_key))
    }
}

impl Config {
    /// Builds the configuration from the secrets as they were read. Without a
    /// gateway token there is nothing to run, and that is an error; a missing
    /// completion key is kept as missing.
    pub fn from_values(bot_token: Option<String>, api_key: Option<String>) -> (r: Result<
        Config,
        ConfigError,
    >)
        ensures
            bot_token is None <==> r == Err::<Config, ConfigError>(ConfigError::MissingBotToken),
            r is Ok <==> bot_token is Some,
            r matches Ok(c) ==> c@ == (bot_token->0@, opt_view(api_key)),
    {
        match bot_token {
            Some(token) => Ok(Config { bot_token: token, api_key }),
            None => Err(ConfigError::MissingBotToken),
        }
    }

    pub fn bot_token(&self) -> (r: &str)
        ensures
            r@ == self@.0,
    {
        self.bot_token.as_str()
    }

    pub fn api_key(&self) -> (r: Option<&str>)
        ensures
            r is Some <==> self@.1 is Some,
            r matches Some(k) ==> k@ == self@.1->0,
    {
        match &self.api_key {
            Some(k) => Some(k.as_str()),
            None => None,
        }
    }
}

} // verus!
