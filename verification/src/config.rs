//! Settings the authentication core is run with.

use vstd::prelude::*;

verus! {

/// Settings as a whole.
pub struct Config {
    pub general: General,
    pub database: Database,
}

/// Settings of the token lifecycle.
pub struct General {
    /// How long a token stays valid after it was issued, in milliseconds.
    pub token_valid_duration: i64,
}

/// Where the credential store is reached.
pub struct Database {
    pub database_url: String,
}

/// Two weeks, in milliseconds.
pub open spec fn two_weeks_millis() -> int {
    1000int * 60 * 60 * 24 * 7 * 2
}

/// Default duration a token is valid for, in milliseconds.
pub fn token_valid_duration_default() -> (millis: i64)
    ensures
        millis == two_weeks_millis(),
        millis == 1_209_600_000,
{
    1_209_600_000
}

impl Config {
    /// The time-to-live that validation goes by.
    pub open spec fn ttl(&self) -> int {
        self.general.token_valid_duration as int
    }

    /// Builds the settings from the values a configuration source gave. A
    /// missing token duration is the default of two weeks.
    pub fn new(token_valid_duration: Option<i64>, database_url: String) -> (config: Config)
        ensures
            config.database.database_url == database_url,
            config.ttl() == match token_valid_duration {
                Some(millis) => millis as int,
                None => two_weeks_millis(),
            },
    {
        let token_valid_duration = match token_valid_duration {
            Some(millis) => millis,
            None => token_valid_duration_default(),
        };
        Config {
            general: General { token_valid_duration },
            database: Database { database_url },
        }
    }
}

} // verus!
