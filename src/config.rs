use vstd::prelude::*;
use crate::decimal::{all_digits, digits_value, parse_digits};

verus! {

/// Settings read once at start and never changed: token salt, signing secret and
/// token lifetime in seconds, written in decimal.
#[derive(Debug, Clone)]
pub struct Config {
    pub jwt_salt: String,
    pub jwt_secret: String,
    pub jwt_expiration: String,
}

/// Which setting is missing or unusable.
#[derive(Debug, Clone, Copy, PartialEq, Eq, Structural)]
pub enum ConfigError {
    MissingSalt,
    MissingSecret,
    MissingExpiration,
    InvalidExpiration,
}

/// The value of a decimal numeral that fits in a `u64`.
pub open spec fn decimal_of(s: Seq<char>) -> Option<u64> {
    if s.len() > 0 && all_digits(s) && digits_value(s) <= u64::MAX {
        Some(digits_value(s) as u64)
    } else {
        None
    }
}

impl Config {
    /// The token lifetime in seconds, if the setting is a decimal numeral that fits.
    pub fn expiration_seconds(&self) -> (r: Option<u64>)
        ensures
            r == decimal_of(self.jwt_expiration@),
    {
        let s = self.jwt_expiration.as_str();
        let n = s.unicode_len();
        assert(s@.subrange(0, n as int) =~= s@);
        parse_digits(s, 0, n)
    }
}

/// Builds the settings from what the environment provided. Each setting is required,
/// and the lifetime must be a decimal numeral; the first problem found is reported,
/// in the order salt, secret, lifetime.
pub fn load_config(salt: Option<String>, secret: Option<String>, expiration: Option<String>) -> (r:
    Result<Config, ConfigError>)
    ensures
        salt is None ==> r == Err::<Config, ConfigError>(ConfigError::MissingSalt),
        salt is Some && secret is None ==> r == Err::<Config, ConfigError>(
            ConfigError::MissingSecret,
        ),
        salt is Some && secret is Some && expiration is None ==> r == Err::<Config, ConfigError>(
            ConfigError::MissingExpiration,
        ),
        (salt is Some && secret is Some && expiration is Some) ==> {
            let e = expiration->Some_0;
            &&& decimal_of(e@) is None ==> r == Err::<Config, ConfigError>(
                ConfigError::InvalidExpiration,
            )
            &&& decimal_of(e@) is Some ==> r == Ok::<Config, ConfigError>(
                (Config { jwt_salt: salt->Some_0, jwt_secret: secret->Some_0, jwt_expiration: e }),
            )
        },
{
    let jwt_salt = match salt {
        Some(s) => s,
        None => {
            return Err(ConfigError::MissingSalt);
        },
    };
    let jwt_secret = match secret {
        Some(s) => s,
        None => {
            return Err(ConfigError::MissingSecret);
        },
    };
    let jwt_expiration = match expiration {
        Some(s) => s,
        None => {
            return Err(ConfigError::MissingExpiration);
        },
    };
    let c = Config { jwt_salt, jwt_secret, jwt_expiration };
    if c.expiration_seconds().is_none() {
        return Err(ConfigError::InvalidExpiration);
    }
    Ok(c)
}

} // verus!
