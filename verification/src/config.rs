//! Resolving a client configuration.
//!
//! Every setting is taken from the first place that has it: the explicit
//! configuration, then the environment, then a fixed default. Nothing is
//! rejected here: an empty project alias or API key resolves, and is
//! refused when content is requested.

use vstd::prelude::*;
use vstd::string::StringExecFns;
use vstd::string::StrSliceExecFns;

verus! {

/// Environment variable that holds the project alias.
pub const ENV_PROJECT_ALIAS: &'static str = "UMBRACO_PROJECT_ALIAS";

/// Environment variable that holds the API key.
pub const ENV_API_KEY: &'static str = "UMBRACO_API_KEY";

/// Environment variable that holds the base URL of the API.
pub const ENV_API_URL: &'static str = "UMBRACO_API_URL";

/// Environment variable that switches the client on or off.
pub const ENV_ENABLED: &'static str = "UMBRACO_ENABLED";

/// Environment variable that holds the cache time-to-live in seconds.
pub const ENV_CACHE_TTL: &'static str = "UMBRACO_CACHE_TTL";

/// Environment variable that switches the fallback on or off.
pub const ENV_FALLBACK_ENABLED: &'static str = "UMBRACO_FALLBACK_ENABLED";

/// Base URL used where neither the configuration nor the environment has one.
pub const DEFAULT_API_URL: &'static str = "https://cdn.umbraco.io";

/// Time-to-live in seconds used where neither the configuration nor the
/// environment has a readable one.
pub const DEFAULT_CACHE_TTL: u64 = 300;

/// The settings that a caller states explicitly. A field that is `None` is
/// resolved from the environment.
#[derive(Debug, Clone)]
pub struct UmbracoConfig {
    pub project_alias: Option<String>,
    pub api_key: Option<String>,
    pub api_url: Option<String>,
    pub enabled: Option<bool>,
    pub cache_ttl: Option<u64>,
    pub fallback_enabled: Option<bool>,
}

impl UmbracoConfig {
    /// No field is stated.
    pub open spec fn states_nothing(self) -> bool {
        &&& self.project_alias is None
        &&& self.api_key is None
        &&& self.api_url is None
        &&& self.enabled is None
        &&& self.cache_ttl is None
        &&& self.fallback_enabled is None
    }
}

impl Default for UmbracoConfig {
    fn default() -> (made: Self)
        ensures
            made.states_nothing(),
    {
        UmbracoConfig {
            project_alias: None,
            api_key: None,
            api_url: None,
            enabled: None,
            cache_ttl: None,
            fallback_enabled: None,
        }
    }
}

/// The values of the six environment variables, each `None` where the
/// variable is not set.
#[derive(Debug, Clone)]
pub struct Environment {
    pub project_alias: Option<String>,
    pub api_key: Option<String>,
    pub api_url: Option<String>,
    pub enabled: Option<String>,
    pub cache_ttl: Option<String>,
    pub fallback_enabled: Option<String>,
}

impl Environment {
    /// An environment in which none of the variables is set.
    pub fn empty() -> (made: Self)
        ensures
            made.project_alias is None,
            made.api_key is None,
            made.api_url is None,
            made.enabled is None,
            made.cache_ttl is None,
            made.fallback_enabled is None,
    {
        Environment {
            project_alias: None,
            api_key: None,
            api_url: None,
            enabled: None,
            cache_ttl: None,
            fallback_enabled: None,
        }
    }
}

/// The characters of an optional text.
pub open spec fn text_of(text: Option<String>) -> Option<Seq<char>> {
    match text {
        Some(t) => Some(t@),
        None => None,
    }
}

/// A text setting: the explicit value, else the environment's, else the
/// default.
pub open spec fn resolved_text(
    explicit: Option<Seq<char>>,
    ambient: Option<Seq<char>>,
    fallback: Seq<char>,
) -> Seq<char> {
    match explicit {
        Some(text) => text,
        None => match ambient {
            Some(text) => text,
            None => fallback,
        },
    }
}

/// The text is the word "false", in any mix of upper and lower case.
pub open spec fn reads_as_false(text: Seq<char>) -> bool {
    &&& text.len() == 5
    &&& (text[0] == 'f' || text[0] == 'F')
    &&& (text[1] == 'a' || text[1] == 'A')
    &&& (text[2] == 'l' || text[2] == 'L')
    &&& (text[3] == 's' || text[3] == 'S')
    &&& (text[4] == 'e' || text[4] == 'E')
}

/// A switch: the explicit value, else whether the environment's text is
/// anything but "false", else on.
pub open spec fn resolved_flag(explicit: Option<bool>, ambient: Option<Seq<char>>) -> bool {
    match explicit {
        Some(flag) => flag,
        None => match ambient {
            Some(text) => !reads_as_false(text),
            None => true,
        },
    }
}

/// The character is one of the ten decimal digits.
pub open spec fn is_digit(c: char) -> bool {
    '0' <= c && c <= '9'
}

/// Every character of the text is a decimal digit.
pub open spec fn all_digits(text: Seq<char>) -> bool {
    forall|i: int| 0 <= i < text.len() ==> is_digit(#[trigger] text[i])
}

/// The number that a text of decimal digits writes.
pub open spec fn decimal_value(digits: Seq<char>) -> nat
    decreases digits.len(),
{
    if digits.len() == 0 {
        0
    } else {
        (decimal_value(digits.drop_last()) * 10 + (digits.last() as nat - '0' as nat)) as nat
    }
}

/// The text without one leading plus sign.
pub open spec fn unsigned_part(text: Seq<char>) -> Seq<char> {
    if text.len() > 0 && text[0] == '+' {
        text.subrange(1, text.len() as int)
    } else {
        text
    }
}

/// A number of seconds read from a text: an optional plus sign, then one or
/// more decimal digits and nothing else, writing a number that fits 64 bits.
/// Any other text reads as nothing.
pub open spec fn parsed_seconds(text: Seq<char>) -> Option<u64> {
    let digits = unsigned_part(text);
    if digits.len() > 0 && all_digits(digits) && decimal_value(digits) <= u64::MAX {
        Some(decimal_value(digits) as u64)
    } else {
        None
    }
}

/// The time-to-live: the explicit value, else the environment's where it
/// reads as a number of seconds, else the default.
pub open spec fn resolved_ttl(explicit: Option<u64>, ambient: Option<Seq<char>>) -> u64 {
    match explicit {
        Some(seconds) => seconds,
        None => match ambient {
            Some(text) => match parsed_seconds(text) {
                Some(seconds) => seconds,
                None => DEFAULT_CACHE_TTL,
            },
            None => DEFAULT_CACHE_TTL,
        },
    }
}

/// A finished configuration, as a value of the model.
pub struct Settings {
    pub project_alias: Seq<char>,
    pub api_key: Seq<char>,
    pub api_url: Seq<char>,
    pub enabled: bool,
    pub cache_ttl: u64,
    pub fallback_enabled: bool,
}

/// What a configuration resolves to in an environment.
pub open spec fn resolved_settings(config: UmbracoConfig, environment: Environment) -> Settings {
    Settings {
        project_alias: resolved_text(
            text_of(config.project_alias),
            text_of(environment.project_alias),
            Seq::empty(),
        ),
        api_key: resolved_text(text_of(config.api_key), text_of(environment.api_key), Seq::empty()),
        api_url: resolved_text(
            text_of(config.api_url),
            text_of(environment.api_url),
            DEFAULT_API_URL@,
        ),
        enabled: resolved_flag(config.enabled, text_of(environment.enabled)),
        cache_ttl: resolved_ttl(config.cache_ttl, text_of(environment.cache_ttl)),
        fallback_enabled: resolved_flag(
            config.fallback_enabled,
            text_of(environment.fallback_enabled),
        ),
    }
}

/// What resolves where no configuration is given at all.
pub open spec fn environment_settings(environment: Environment) -> Settings {
    Settings {
        project_alias: resolved_text(None, text_of(environment.project_alias), Seq::empty()),
        api_key: resolved_text(None, text_of(environment.api_key), Seq::empty()),
        api_url: resolved_text(None, text_of(environment.api_url), DEFAULT_API_URL@),
        enabled: resolved_flag(None, text_of(environment.enabled)),
        cache_ttl: resolved_ttl(None, text_of(environment.cache_ttl)),
        fallback_enabled: resolved_flag(None, text_of(environment.fallback_enabled)),
    }
}

/// A finished client configuration. It does not change once it is made.
#[derive(Debug, Clone)]
pub struct ClientConfig {
    project_alias: String,
    api_key: String,
    api_url: String,
    enabled: bool,
    cache_ttl: u64,
    fallback_enabled: bool,
}

impl View for ClientConfig {
    type V = Settings;

    closed spec fn view(&self) -> Settings {
        Settings {
            project_alias: self.project_alias@,
            api_key: self.api_key@,
            api_url: self.api_url@,
            enabled: self.enabled,
            cache_ttl: self.cache_ttl,
            fallback_enabled: self.fallback_enabled,
        }
    }
}

impl ClientConfig {
    /// The project identifier.
    pub fn project_alias(&self) -> (text: &str)
        ensures
            text@ == self@.project_alias,
    {
        self.project_alias.as_str()
    }

    /// The API key.
    pub fn api_key(&self) -> (text: &str)
        ensures
            text@ == self@.api_key,
    {
        self.api_key.as_str()
    }

    /// The base URL of the API.
    pub fn api_url(&self) -> (text: &str)
        ensures
            text@ == self@.api_url,
    {
        self.api_url.as_str()
    }

    /// Whether the client is switched on.
    pub fn enabled(&self) -> (flag: bool)
        ensures
            flag == self@.enabled,
    {
        self.enabled
    }

    /// The cache time-to-live in seconds.
    pub fn cache_ttl(&self) -> (seconds: u64)
        ensures
            seconds == self@.cache_ttl,
    {
        self.cache_ttl
    }

    /// Whether the fallback is switched on.
    pub fn fallback_enabled(&self) -> (flag: bool)
        ensures
            flag == self@.fallback_enabled,
    {
        self.fallback_enabled
    }
}

/// Taking a prefix of a text of digits does not give a larger number.
pub proof fn lemma_decimal_prefix(digits: Seq<char>, upto: int)
    requires
        all_digits(digits),
        0 <= upto <= digits.len(),
    ensures
        decimal_value(digits.subrange(0, upto)) <= decimal_value(digits),
    decreases digits.len() - upto,
{
    if upto == digits.len() {
        assert(digits.subrange(0, upto) =~= digits);
    } else {
        lemma_decimal_prefix(digits, upto + 1);
        let longer = digits.subrange(0, upto + 1);
        assert(longer.drop_last() =~= digits.subrange(0, upto));
        assert(is_digit(digits[upto]));
        assert(longer.last() == digits[upto]);
    }
}

/// Whether a text is the word "false" in any mix of upper and lower case.
pub fn is_false_word(text: &str) -> (answer: bool)
    ensures
        answer == reads_as_false(text@),
{
    if text.unicode_len() != 5 {
        return false;
    }
    let c0 = text.get_char(0);
    let c1 = text.get_char(1);
    let c2 = text.get_char(2);
    let c3 = text.get_char(3);
    let c4 = text.get_char(4);
    (c0 == 'f' || c0 == 'F') && (c1 == 'a' || c1 == 'A') && (c2 == 'l' || c2 == 'L') && (c3 == 's'
        || c3 == 'S') && (c4 == 'e' || c4 == 'E')
}

/// Reads a number of seconds from a text.
pub fn parse_seconds(text: &str) -> (parsed: Option<u64>)
    ensures
        parsed == parsed_seconds(text@),
{
    let length = text.unicode_len();
    let start: usize = if length > 0 && text.get_char(0) == '+' {
        1
    } else {
        0
    };
    if start == length {
        return None;
    }
    let ghost digits = unsigned_part(text@);
    let mut total: u64 = 0;
    let mut at: usize = start;
    while at < length
        invariant
            length == text@.len(),
            start <= at <= length,
            start < length,
            digits == unsigned_part(text@),
            digits == text@.subrange(start as int, length as int),
            all_digits(digits.subrange(0, at - start)),
            total == decimal_value(digits.subrange(0, at - start)),
        decreases length - at,
    {
        let c = text.get_char(at);
        let ghost before = digits.subrange(0, at - start);
        let ghost after = digits.subrange(0, at - start + 1);
        proof {
            assert(digits[at - start] == c);
            assert(after.drop_last() =~= before);
            assert(after.last() == c);
        }
        if c < '0' || c > '9' {
            proof {
                assert(!is_digit(digits[at - start]));
            }
            return None;
        }
        let digit: u64 = (c as u32 - '0' as u32) as u64;
        proof {
            assert(decimal_value(after) == total * 10 + digit);
            assert forall|i: int| 0 <= i < after.len() implies is_digit(#[trigger] after[i]) by {
                if i < before.len() {
                    assert(after[i] == before[i]);
                }
            }
        }
        let scaled = match total.checked_mul(10) {
            Some(scaled) => scaled,
            None => {
                proof {
                    lemma_overflow_stays(digits, at - start + 1);
                }
                return None;
            },
        };
        total = match scaled.checked_add(digit) {
            Some(sum) => sum,
            None => {
                proof {
                    lemma_overflow_stays(digits, at - start + 1);
                }
                return None;
            },
        };
        at += 1;
    }
    proof {
        assert(digits.subrange(0, at - start) =~= digits);
    }
    Some(total)
}

/// Where a prefix of a text of digits writes a number beyond 64 bits, so
/// does the text.
pub proof fn lemma_overflow_stays(digits: Seq<char>, upto: int)
    requires
        0 <= upto <= digits.len(),
        decimal_value(digits.subrange(0, upto)) > u64::MAX,
    ensures
        !(all_digits(digits) && decimal_value(digits) <= u64::MAX),
{
    if all_digits(digits) {
        lemma_decimal_prefix(digits, upto);
    }
}

/// Resolves a configuration: each setting comes from the explicit
/// configuration where it states one, else from the environment, else from
/// the default. Without a configuration every setting comes from the
/// environment or the default.
pub fn resolve(config: Option<UmbracoConfig>, environment: Environment) -> (resolved: ClientConfig)
    ensures
        resolved@ == (match config {
            Some(stated) => resolved_settings(stated, environment),
            None => environment_settings(environment),
        }),
{
    let stated = match config {
        Some(stated) => stated,
        None => UmbracoConfig::default(),
    };
    let project_alias = resolve_text(stated.project_alias, environment.project_alias, "");
    let api_key = resolve_text(stated.api_key, environment.api_key, "");
    let api_url = resolve_text(stated.api_url, environment.api_url, DEFAULT_API_URL);
    let enabled = resolve_flag(stated.enabled, environment.enabled);
    let cache_ttl = resolve_ttl(stated.cache_ttl, environment.cache_ttl);
    let fallback_enabled = resolve_flag(stated.fallback_enabled, environment.fallback_enabled);
    proof {
        reveal_strlit("");
        assert(""@ =~= Seq::<char>::empty());
    }
    ClientConfig { project_alias, api_key, api_url, enabled, cache_ttl, fallback_enabled }
}

/// Resolves one text setting.
pub fn resolve_text(explicit: Option<String>, ambient: Option<String>, fallback: &str) -> (text:
    String)
    ensures
        text@ == resolved_text(text_of(explicit), text_of(ambient), fallback@),
{
    match explicit {
        Some(text) => text,
        None => match ambient {
            Some(text) => text,
            None => String::from_str(fallback),
        },
    }
}

/// Resolves one switch.
pub fn resolve_flag(explicit: Option<bool>, ambient: Option<String>) -> (flag: bool)
    ensures
        flag == resolved_flag(explicit, text_of(ambient)),
{
    match explicit {
        Some(flag) => flag,
        None => match ambient {
            Some(text) => !is_false_word(text.as_str()),
            None => true,
        },
    }
}

/// Resolves the time-to-live in seconds.
pub fn resolve_ttl(explicit: Option<u64>, ambient: Option<String>) -> (seconds: u64)
    ensures
        seconds == resolved_ttl(explicit, text_of(ambient)),
{
    match explicit {
        Some(seconds) => seconds,
        None => match ambient {
            Some(text) => match parse_seconds(text.as_str()) {
                Some(seconds) => seconds,
                None => DEFAULT_CACHE_TTL,
            },
            None => DEFAULT_CACHE_TTL,
        },
    }
}

} // verus!
