//! The settings that the service is started with. They are read once, handed
//! to the token service, and never changed.

use vstd::prelude::*;

verus! {

/// The longest token lifetime, in hours, that can be held as a duration with
/// millisecond precision in 64 bits.
pub const MAX_HOURS: i64 = 2_562_047_788_015;

pub const SECONDS_PER_HOUR: u64 = 3600;

/// The settings of the service. The two secrets sign the two kinds of token
/// and are meant to differ.
#[derive(Clone)]
pub struct Config {
    pub rabbitmq_url: String,
    pub postgres_url: String,
    pub socket: String,
    pub jwt_access_secret: String,
    /// Lifetime of an access token, in hours.
    pub jwt_access_hours: i64,
    pub jwt_refresh_secret: String,
    /// Lifetime of a refresh token and of the cookie that carries it, in hours.
    pub jwt_refresh_hours: i64,
    pub jwt_refresh_cookie_name: String,
    pub jwt_domain: String,
}

/// A lifetime that a token can be issued with: at least one hour, so that a
/// token expires after it was issued, and no more than `MAX_HOURS`.
pub open spec fn valid_hours(hours: i64) -> bool {
    1 <= hours <= MAX_HOURS
}

/// Why a set of values gives no settings.
#[derive(Debug, Clone, Copy, PartialEq, Eq, Structural)]
pub enum ConfigError {
    /// The access-token lifetime is no number, or no usable one.
    InvalidAccessHours,
    /// The refresh-token lifetime is no number, or no usable one.
    InvalidRefreshHours,
}

/// The number that a text denotes as a signed decimal of 64 bits, `None` where
/// it denotes none.
pub uninterp spec fn parsed_i64(text: Seq<char>) -> Option<i64>;

/// The text with every letter in lower case.
pub uninterp spec fn lowercased(text: Seq<char>) -> Seq<char>;

/// Assumed of `str::parse::<i64>`: its result depends on the text alone.
#[verifier::external_body]
fn parse_i64(text: &str) -> (number: Option<i64>)
    ensures
        number == parsed_i64(text@),
{
    text.parse::<i64>().ok()
}

/// Assumed of `str::to_lowercase`: its result depends on the text alone.
#[verifier::external_body]
fn lowercase(text: &str) -> (lower: String)
    ensures
        lower@ == lowercased(text@),
{
    text.to_lowercase()
}

/// The lifetime that a text gives: the number it denotes, if that is usable.
pub open spec fn spec_hours(text: Seq<char>) -> Option<i64> {
    match parsed_i64(text) {
        Some(hours) => if valid_hours(hours) { Some(hours) } else { None },
        None => None,
    }
}

/// The lifetime that a parsed number gives.
pub fn usable_hours(parsed: Option<i64>) -> (hours: Option<i64>)
    ensures
        hours == match parsed {
            Some(n) => if valid_hours(n) { Some(n) } else { None },
            None => None,
        },
{
    match parsed {
        Some(n) => if 1 <= n && n <= MAX_HOURS { Some(n) } else { None },
        None => None,
    }
}

/// The truth value that a lower-case word denotes.
pub open spec fn spec_flag(word: Seq<char>) -> Option<bool> {
    if word == "1"@ || word == "true"@ || word == "yes"@ || word == "on"@ {
        Some(true)
    } else if word == "0"@ || word == "false"@ || word == "no"@ || word == "off"@ {
        Some(false)
    } else {
        None
    }
}

/// Reads a lower-case word as a truth value.
pub fn flag_of(word: &String) -> (flag: Option<bool>)
    ensures
        flag == spec_flag(word@),
{
    if *word == "1".to_string() || *word == "true".to_string() || *word == "yes".to_string() || *word
        == "on".to_string() {
        Some(true)
    } else if *word == "0".to_string() || *word == "false".to_string() || *word == "no".to_string()
        || *word == "off".to_string() {
        Some(false)
    } else {
        None
    }
}

/// Reads a setting as a truth value, in any mix of upper and lower case:
/// `1`, `true`, `yes` and `on` are true, `0`, `false`, `no` and `off` are
/// false, and every other text is none.
pub fn parse_bool(value: &str) -> (flag: Option<bool>)
    ensures
        flag == spec_flag(lowercased(value@)),
{
    let lower = lowercase(value);
    flag_of(&lower)
}

impl Config {
    /// Both token lifetimes are usable.
    pub open spec fn wf(&self) -> bool {
        &&& valid_hours(self.jwt_access_hours)
        &&& valid_hours(self.jwt_refresh_hours)
    }

    /// Whether both token lifetimes are usable.
    pub fn is_valid(&self) -> (ok: bool)
        ensures
            ok == self.wf(),
    {
        1 <= self.jwt_access_hours && self.jwt_access_hours <= MAX_HOURS
            && 1 <= self.jwt_refresh_hours && self.jwt_refresh_hours <= MAX_HOURS
    }
}

impl Config {
    /// True of the outcome `r` of assembling the settings from the given
    /// values: the settings with the lifetimes that the two texts give and the
    /// cookie name `refresh_token`, or the first lifetime that is unusable.
    pub open spec fn assembled(
        r: Result<Config, ConfigError>,
        rabbitmq_url: String,
        postgres_url: String,
        socket: String,
        jwt_access_secret: String,
        jwt_access_hours: Seq<char>,
        jwt_refresh_secret: String,
        jwt_refresh_hours: Seq<char>,
        jwt_domain: String,
    ) -> bool {
        if spec_hours(jwt_access_hours) is None {
            r == Err::<Config, ConfigError>(ConfigError::InvalidAccessHours)
        } else if spec_hours(jwt_refresh_hours) is None {
            r == Err::<Config, ConfigError>(ConfigError::InvalidRefreshHours)
        } else {
            &&& r is Ok
            &&& r->Ok_0.wf()
            &&& r->Ok_0.rabbitmq_url == rabbitmq_url
            &&& r->Ok_0.postgres_url == postgres_url
            &&& r->Ok_0.socket == socket
            &&& r->Ok_0.jwt_access_secret == jwt_access_secret
            &&& r->Ok_0.jwt_access_hours == spec_hours(jwt_access_hours)->Some_0
            &&& r->Ok_0.jwt_refresh_secret == jwt_refresh_secret
            &&& r->Ok_0.jwt_refresh_hours == spec_hours(jwt_refresh_hours)->Some_0
            &&& r->Ok_0.jwt_refresh_cookie_name@ == "refresh_token"@
            &&& r->Ok_0.jwt_domain == jwt_domain
        }
    }

    /// Assembles the settings from the values they are configured with. The
    /// two lifetimes come as text, in hours.
    pub fn new(
        rabbitmq_url: String,
        postgres_url: String,
        socket: String,
        jwt_access_secret: String,
        jwt_access_hours: &str,
        jwt_refresh_secret: String,
        jwt_refresh_hours: &str,
        jwt_domain: String,
    ) -> (r: Result<Config, ConfigError>)
        ensures
            Self::assembled(
                r,
                rabbitmq_url,
                postgres_url,
                socket,
                jwt_access_secret,
                jwt_access_hours@,
                jwt_refresh_secret,
                jwt_refresh_hours@,
                jwt_domain,
            ),
    {
        let access_hours: i64 = match usable_hours(parse_i64(jwt_access_hours)) {
            Some(hours) => hours,
            None => { return Err(ConfigError::InvalidAccessHours); },
        };
        let refresh_hours: i64 = match usable_hours(parse_i64(jwt_refresh_hours)) {
            Some(hours) => hours,
            None => { return Err(ConfigError::InvalidRefreshHours); },
        };
        Ok(
            Config {
                rabbitmq_url,
                postgres_url,
                socket,
                jwt_access_secret,
                jwt_access_hours: access_hours,
                jwt_refresh_secret,
                jwt_refresh_hours: refresh_hours,
                jwt_refresh_cookie_name: "refresh_token".to_string(),
                jwt_domain,
            },
        )
    }
}

} // verus!
