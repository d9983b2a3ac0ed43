//! The server's configuration, built from the values of its environment
//! variables.

use vstd::prelude::*;
use crate::text::{chars_of, opt_text};

verus! {

/// The port the server listens on where none is configured.
pub const DEFAULT_PORT: u16 = 8000;

/// The largest upload accepted where no limit is configured: 20 MiB.
pub const DEFAULT_MAX_UPLOAD_SIZE: usize = 20971520;

/// Everything the server needs to know before it starts.
#[derive(Debug, Clone, PartialEq, Eq)]
pub struct Config {
    pub database_url: String,
    /// The secret that tokens are signed under, fixed for the life of the
    /// process.
    pub jwt_secret: String,
    pub port: u16,
    pub frontend_url: String,
    pub max_upload_size: usize,
}

/// Why no configuration could be built.
#[derive(Debug, Clone, Copy, PartialEq, Eq, Structural)]
pub enum ConfigError {
    MissingDatabaseUrl,
    MissingJwtSecret,
    InvalidPort,
    MissingFrontendUrl,
    InvalidMaxUploadSize,
}

impl ConfigError {
    /// The text of this error.
    pub open spec fn text(self) -> Seq<char> {
        match self {
            ConfigError::MissingDatabaseUrl => "DATABASE_URL must be set"@,
            ConfigError::MissingJwtSecret => "JWT_SECRET must be set"@,
            ConfigError::InvalidPort => "PORT must be a number"@,
            ConfigError::MissingFrontendUrl => "FRONTEND_URL must be set"@,
            ConfigError::InvalidMaxUploadSize => "MAX_UPLOAD_SIZE must be a number"@,
        }
    }

    /// Renders the error as text.
    pub fn message(&self) -> (out: String)
        ensures
            out@ == self.text(),
    {
        match self {
            ConfigError::MissingDatabaseUrl => "DATABASE_URL must be set".to_owned(),
            ConfigError::MissingJwtSecret => "JWT_SECRET must be set".to_owned(),
            ConfigError::InvalidPort => "PORT must be a number".to_owned(),
            ConfigError::MissingFrontendUrl => "FRONTEND_URL must be set".to_owned(),
            ConfigError::InvalidMaxUploadSize => "MAX_UPLOAD_SIZE must be a number".to_owned(),
        }
    }
}

/// `c` is one of the ten ASCII digits.
pub open spec fn is_digit(c: char) -> bool {
    '0' <= c <= '9'
}

/// The number a run of ASCII digits writes in base ten.
pub open spec fn digits_value(digits: Seq<char>) -> nat
    decreases digits.len(),
{
    if digits.len() == 0 {
        0
    } else {
        digits_value(digits.drop_last()) * 10 + (digits.last() as nat - '0' as nat) as nat
    }
}

/// Every character of `digits` is an ASCII digit.
pub open spec fn all_digits(digits: Seq<char>) -> bool {
    forall|i: int| 0 <= i < digits.len() ==> is_digit(#[trigger] digits[i])
}

/// `text` without the `+` it may begin with.
pub open spec fn unsigned_part(text: Seq<char>) -> Seq<char> {
    if text.len() > 0 && text[0] == '+' {
        text.skip(1)
    } else {
        text
    }
}

/// The number that `text` writes, if it is an unsigned decimal number no
/// larger than `max`: an optional `+`, then one or more ASCII digits and
/// nothing else.
pub open spec fn parsed_number(text: Seq<char>, max: u64) -> Option<u64> {
    let digits = unsigned_part(text);
    if digits.len() > 0 && all_digits(digits) && digits_value(digits) <= max {
        Some(digits_value(digits) as u64)
    } else {
        None
    }
}

/// Appending digits never makes the number smaller.
proof fn lemma_digits_value_grows(digits: Seq<char>, n: int)
    requires
        0 <= n <= digits.len(),
        all_digits(digits),
    ensures
        digits_value(digits.take(n)) <= digits_value(digits),
    decreases digits.len() - n,
{
    if n < digits.len() {
        lemma_digits_value_grows(digits, n + 1);
        assert(digits.take(n + 1).drop_last() =~= digits.take(n));
        assert(is_digit(digits[n]));
    } else {
        assert(digits.take(n) =~= digits);
    }
}

/// Reads an unsigned decimal number no larger than `max`.
pub fn parse_number(text: &str, max: u64) -> (number: Option<u64>)
    ensures
        number == parsed_number(text@, max),
{
    let chars = chars_of(text);
    let start: usize = if chars.len() > 0 && chars[0] == '+' {
        1
    } else {
        0
    };
    let ghost digits = unsigned_part(text@);
    assert(text@.skip(0) =~= text@);
    if start == chars.len() {
        return None;
    }
    assert(digits.take(0) =~= Seq::<char>::empty());
    let mut value: u64 = 0;
    let mut i: usize = start;
    while i < chars.len()
        invariant
            start <= i <= chars.len(),
            start < chars.len(),
            chars@ == text@,
            digits == text@.skip(start as int),
            digits == unsigned_part(text@),
            all_digits(digits.take(i - start)),
            value == digits_value(digits.take(i - start)),
            value <= max,
        decreases chars.len() - i,
    {
        let c = chars[i];
        assert(c == digits[i - start]);
        if !('0' <= c && c <= '9') {
            assert(!is_digit(digits[i - start]));
            return None;
        }
        let digit = (c as u32 - '0' as u32) as u64;
        let ghost longer = digits.take(i - start + 1);
        assert(longer.drop_last() =~= digits.take(i - start));
        assert(longer.last() == c);
        assert(digits_value(longer) == value * 10 + digit);
        assert(all_digits(longer)) by {
            assert forall|j: int| 0 <= j < longer.len() implies is_digit(#[trigger] longer[j]) by {
                if j < i - start {
                    assert(is_digit(digits.take(i - start)[j]));
                }
            }
        }
        if digit > max || value > (max - digit) / 10 {
            proof {
                if all_digits(digits) {
                    lemma_digits_value_grows(digits, i - start + 1);
                }
            }
            return None;
        }
        value = value * 10 + digit;
        i += 1;
    }
    assert(digits.take(i - start) =~= digits);
    Some(value)
}

/// The number a numeric setting stands for: the default where the setting
/// is absent, `None` where its text is no number in range.
pub open spec fn numeric_setting(setting: Option<Seq<char>>, default: u64, max: u64) -> Option<u64> {
    match setting {
        Some(text) => parsed_number(text, max),
        None => Some(default),
    }
}

/// The first thing that is wrong with the settings, if anything is.
pub open spec fn config_error(
    database_url: Option<Seq<char>>,
    jwt_secret: Option<Seq<char>>,
    port: Option<Seq<char>>,
    frontend_url: Option<Seq<char>>,
    max_upload_size: Option<Seq<char>>,
) -> Option<ConfigError> {
    if database_url is None {
        Some(ConfigError::MissingDatabaseUrl)
    } else if jwt_secret is None {
        Some(ConfigError::MissingJwtSecret)
    } else if numeric_setting(port, DEFAULT_PORT as u64, u16::MAX as u64) is None {
        Some(ConfigError::InvalidPort)
    } else if frontend_url is None {
        Some(ConfigError::MissingFrontendUrl)
    } else if numeric_setting(max_upload_size, DEFAULT_MAX_UPLOAD_SIZE as u64, usize::MAX as u64)
        is None {
        Some(ConfigError::InvalidMaxUploadSize)
    } else {
        None
    }
}

impl Config {
    /// Builds the configuration from the values of `DATABASE_URL`,
    /// `JWT_SECRET`, `PORT`, `FRONTEND_URL` and `MAX_UPLOAD_SIZE`, each
    /// `None` where the variable is not set.
    ///
    /// The database, the secret and the frontend have no default. The
    /// port and the upload limit have one, but where they are set they
    /// must be numbers in range. The first setting at fault, in the order
    /// above, is the error.
    pub fn from_values(
        database_url: Option<String>,
        jwt_secret: Option<String>,
        port: Option<String>,
        frontend_url: Option<String>,
        max_upload_size: Option<String>,
    ) -> (outcome: Result<Config, ConfigError>)
        ensures
            match config_error(
                opt_text(database_url),
                opt_text(jwt_secret),
                opt_text(port),
                opt_text(frontend_url),
                opt_text(max_upload_size),
            ) {
                Some(error) => outcome == Err::<Config, ConfigError>(error),
                None => outcome matches Ok(config) && {
                    &&& Some(config.database_url@) == opt_text(database_url)
                    &&& Some(config.jwt_secret@) == opt_text(jwt_secret)
                    &&& Some(config.port as u64) == numeric_setting(
                        opt_text(port),
                        DEFAULT_PORT as u64,
                        u16::MAX as u64,
                    )
                    &&& Some(config.frontend_url@) == opt_text(frontend_url)
                    &&& Some(config.max_upload_size as u64) == numeric_setting(
                        opt_text(max_upload_size),
                        DEFAULT_MAX_UPLOAD_SIZE as u64,
                        usize::MAX as u64,
                    )
                },
            },
    {
        let database_url = match database_url {
            Some(value) => value,
            None => {
                return Err(ConfigError::MissingDatabaseUrl);
            },
        };
        let jwt_secret = match jwt_secret {
            Some(value) => value,
            None => {
                return Err(ConfigError::MissingJwtSecret);
            },
        };
        let port: u16 = match port {
            Some(text) => match parse_number(text.as_str(), u16::MAX as u64) {
                Some(number) => number as u16,
                None => {
                    return Err(ConfigError::InvalidPort);
                },
            },
            None => DEFAULT_PORT,
        };
        let frontend_url = match frontend_url {
            Some(value) => value,
            None => {
                return Err(ConfigError::MissingFrontendUrl);
            },
        };
        let max_upload_size: usize = match max_upload_size {
            Some(text) => match parse_number(text.as_str(), usize::MAX as u64) {
                Some(number) => number as usize,
                None => {
                    return Err(ConfigError::InvalidMaxUploadSize);
                },
            },
            None => DEFAULT_MAX_UPLOAD_SIZE,
        };
        Ok(Config { database_url, jwt_secret, port, frontend_url, max_upload_size })
    }
}

} // verus!
