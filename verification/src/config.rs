//! The bot's settings.

use vstd::prelude::*;

verus! {

/// Where the bot finds its store, its Discord token and its database, and
/// the token with which it files feedback, if it has one.
pub struct Config {
    pub redis_url: String,
    pub discord_token: String,
    pub database_url: String,
    pub github_token: Option<String>,
}

/// A required setting that was not given.
#[derive(Debug, Clone, Copy, PartialEq, Eq)]
pub enum ConfigError {
    MissingRedisUrl,
    MissingDiscordToken,
    MissingDatabaseUrl,
}

impl ConfigError {
    /// What the bot says when it stops for want of the setting.
    pub fn message(&self) -> (text: String)
        ensures
            *self is MissingRedisUrl ==> text@ == "Expected REDIS_URL in environment"@,
            *self is MissingDiscordToken ==> text@ == "Expected a token in the environment"@,
            *self is MissingDatabaseUrl ==> text@ == "Expected DATABASE_URL in environment"@,
    {
        match self {
            ConfigError::MissingRedisUrl => String::from_str("Expected REDIS_URL in environment"),
            ConfigError::MissingDiscordToken => String::from_str("Expected a token in the environment"),
            ConfigError::MissingDatabaseUrl => String::from_str("Expected DATABASE_URL in environment"),
        }
    }
}

impl Config {
    /// The settings from the values of `REDIS_URL`, `DISCORD_TOKEN`,
    /// `DATABASE_URL` and `GITHUB_TOKEN` (`None` where a variable is not
    /// set). The first three are required, looked for in that order; the
    /// GitHub token is optional.
    pub fn from_values(
        redis_url: Option<String>,
        discord_token: Option<String>,
        database_url: Option<String>,
        github_token: Option<String>,
    ) -> (config: Result<Config, ConfigError>)
        ensures
            redis_url is None ==> config == Err::<Config, ConfigError>(ConfigError::MissingRedisUrl),
            redis_url is Some && discord_token is None
                ==> config == Err::<Config, ConfigError>(ConfigError::MissingDiscordToken),
            redis_url is Some && discord_token is Some && database_url is None
                ==> config == Err::<Config, ConfigError>(ConfigError::MissingDatabaseUrl),
            config matches Ok(c) ==> {
                &&& redis_url == Some(c.redis_url)
                &&& discord_token == Some(c.discord_token)
                &&& database_url == Some(c.database_url)
                &&& c.github_token == github_token
            },
            (redis_url is Some && discord_token is Some && database_url is Some) ==> config is Ok,
    {
        let redis_url = match redis_url {
            Some(v) => v,
            None => return Err(ConfigError::MissingRedisUrl),
        };
        let discord_token = match discord_token {
            Some(v) => v,
            None => return Err(ConfigError::MissingDiscordToken),
        };
        let database_url = match database_url {
            Some(v) => v,
            None => return Err(ConfigError::MissingDatabaseUrl),
        };
        Ok(Config { redis_url, discord_token, database_url, github_token })
    }
}

} // verus!
