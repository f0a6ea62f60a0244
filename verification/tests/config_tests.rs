use umbraco_client::config::{is_false_word, parse_seconds, resolve};
use umbraco_client::config::{DEFAULT_API_URL, DEFAULT_CACHE_TTL};
use umbraco_client::{Environment, UmbracoClient, UmbracoConfig};

fn text(s: &str) -> Option<String> {
    Some(s.to_string())
}

#[test]
fn empty_environment_gives_the_defaults() {
    let resolved = resolve(None, Environment::empty());
    assert_eq!(resolved.project_alias(), "");
    assert_eq!(resolved.api_key(), "");
    assert_eq!(resolved.api_url(), "https://cdn.umbraco.io");
    assert!(resolved.enabled());
    assert_eq!(resolved.cache_ttl(), 300);
    assert!(resolved.fallback_enabled());
    assert_eq!(DEFAULT_API_URL, "https://cdn.umbraco.io");
    assert_eq!(DEFAULT_CACHE_TTL, 300);
}

#[test]
fn unstated_fields_come_from_the_environment() {
    let environment = Environment {
        project_alias: text("demo"),
        api_key: text("secret"),
        api_url: text("https://example.test"),
        enabled: text("FALSE"),
        cache_ttl: text("60"),
        fallback_enabled: text("false"),
    };
    let by_default = resolve(Some(UmbracoConfig::default()), environment.clone());
    let without = resolve(None, environment);
    for resolved in [by_default, without] {
        assert_eq!(resolved.project_alias(), "demo");
        assert_eq!(resolved.api_key(), "secret");
        assert_eq!(resolved.api_url(), "https://example.test");
        assert!(!resolved.enabled());
        assert_eq!(resolved.cache_ttl(), 60);
        assert!(!resolved.fallback_enabled());
    }
}

#[test]
fn explicit_values_win_over_the_environment() {
    let environment = Environment {
        project_alias: text("from-env"),
        api_key: text("env-key"),
        api_url: text("https://env.test"),
        enabled: text("false"),
        cache_ttl: text("60"),
        fallback_enabled: text("false"),
    };
    let config = UmbracoConfig {
        project_alias: text("explicit"),
        api_key: text("explicit-key"),
        api_url: text("https://explicit.test"),
        enabled: Some(true),
        cache_ttl: Some(7),
        fallback_enabled: Some(true),
    };
    let client = UmbracoClient::new(Some(config), environment);
    assert_eq!(client.config().project_alias(), "explicit");
    assert_eq!(client.config().api_key(), "explicit-key");
    assert_eq!(client.config().api_url(), "https://explicit.test");
    assert!(client.config().enabled());
    assert_eq!(client.config().cache_ttl(), 7);
    assert!(client.config().fallback_enabled());
}

#[test]
fn explicit_empty_credentials_resolve() {
    let environment = Environment { project_alias: text("from-env"), ..Environment::empty() };
    let config = UmbracoConfig { project_alias: text(""), ..UmbracoConfig::default() };
    let resolved = resolve(Some(config), environment);
    assert_eq!(resolved.project_alias(), "");
    assert_eq!(resolved.api_key(), "");
}

#[test]
fn a_switch_is_off_only_for_the_word_false() {
    for word in ["false", "FALSE", "False", "fAlSe"] {
        assert!(is_false_word(word), "{word}");
        let environment = Environment { enabled: text(word), ..Environment::empty() };
        assert!(!resolve(None, environment).enabled());
    }
    for word in ["", "true", "0", "no", "off", "false ", " false", "fals", "falsee", "f\u{e4}lse"] {
        assert!(!is_false_word(word), "{word}");
        let environment = Environment { fallback_enabled: text(word), ..Environment::empty() };
        assert!(resolve(None, environment).fallback_enabled());
    }
}

#[test]
fn the_word_false_is_read_as_lowercasing_reads_it() {
    let words = [
        "false", "FALSE", "False", "falsE", "", "true", "False!", "fal\u{17f}e", "\u{212a}alse",
        "FA\u{4c}SE", "\u{ff26}alse", "f a l s e", "FALS", "ffalse", "yes", "0",
    ];
    for word in words {
        assert_eq!(is_false_word(word), word.to_lowercase() == "false", "{word:?}");
    }
}

#[test]
fn seconds_are_read_from_decimal_digits() {
    assert_eq!(parse_seconds("0"), Some(0));
    assert_eq!(parse_seconds("60"), Some(60));
    assert_eq!(parse_seconds("+5"), Some(5));
    assert_eq!(parse_seconds("00012"), Some(12));
    assert_eq!(parse_seconds("18446744073709551615"), Some(u64::MAX));
    assert_eq!(parse_seconds("000000000000000000000000000000000000007"), Some(7));
}

#[test]
fn other_texts_are_not_seconds() {
    for word in [
        "", "+", "-", "-1", "++1", "+-1", "1+", " 5", "5 ", "5s", "abc", "1_000", "1.5", "0x10",
        "18446744073709551616", "99999999999999999999999", "\u{661}\u{662}", "1\u{a0}",
    ] {
        assert_eq!(parse_seconds(word), None, "{word:?}");
    }
}

#[test]
fn seconds_are_read_as_the_standard_parser_reads_them() {
    let words = [
        "", "0", "1", "+1", "-1", "+0", "+", "300", "0300", "18446744073709551615",
        "18446744073709551616", "18446744073709551620", "28446744073709551615", "+18446744073709551615",
        "1e3", " 1", "1 ", "\u{ff11}", "12a", "a12", "4294967296", "+-3", "--", "1844674407370955161",
        "184467440737095516150",
    ];
    for word in words {
        assert_eq!(parse_seconds(word), word.parse::<u64>().ok(), "{word:?}");
    }
}

#[test]
fn an_unreadable_ttl_falls_back_to_the_default() {
    for word in ["", "soon", "-5", "1.5", "18446744073709551616"] {
        let environment = Environment { cache_ttl: text(word), ..Environment::empty() };
        assert_eq!(resolve(None, environment).cache_ttl(), 300, "{word:?}");
    }
    let environment = Environment { cache_ttl: text("0"), ..Environment::empty() };
    assert_eq!(resolve(None, environment).cache_ttl(), 0);
    let environment = Environment { cache_ttl: text("soon"), ..Environment::empty() };
    let config = UmbracoConfig { cache_ttl: Some(9), ..UmbracoConfig::default() };
    assert_eq!(resolve(Some(config), environment).cache_ttl(), 9);
}

#[test]
fn the_environment_variables_are_named() {
    assert_eq!(umbraco_client::config::ENV_PROJECT_ALIAS, "UMBRACO_PROJECT_ALIAS");
    assert_eq!(umbraco_client::config::ENV_API_KEY, "UMBRACO_API_KEY");
    assert_eq!(umbraco_client::config::ENV_API_URL, "UMBRACO_API_URL");
    assert_eq!(umbraco_client::config::ENV_ENABLED, "UMBRACO_ENABLED");
    assert_eq!(umbraco_client::config::ENV_CACHE_TTL, "UMBRACO_CACHE_TTL");
    assert_eq!(umbraco_client::config::ENV_FALLBACK_ENABLED, "UMBRACO_FALLBACK_ENABLED");
}
