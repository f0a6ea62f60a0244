use serde_json::Value;
use umbraco_client::reply::{decode_envelope, is_success_status, read_reply};
use umbraco_client::{Completed, Environment, FetchError, FetchStep, HttpOutcome};
use umbraco_client::{PendingFetch, QueryOptions, UmbracoClient, UmbracoConfig};

const SECOND: u64 = 1_000_000_000;

fn client_with(alias: &str, key: &str, enabled: bool, ttl: u64) -> UmbracoClient {
    let config = UmbracoConfig {
        project_alias: Some(alias.to_string()),
        api_key: Some(key.to_string()),
        api_url: Some("https://cms.test".to_string()),
        enabled: Some(enabled),
        cache_ttl: Some(ttl),
        fallback_enabled: None,
    };
    UmbracoClient::new(Some(config), Environment::empty())
}

fn ready_client(ttl: u64) -> UmbracoClient {
    client_with("demo", "secret", true, ttl)
}

fn ok(body: &str) -> HttpOutcome {
    HttpOutcome::Response { status: 200, body: body.to_string() }
}

fn envelope(items: &str) -> HttpOutcome {
    ok(&format!("{{\"_embedded\":{{\"content\":[{items}]}}}}"))
}

fn parse(text: &str) -> Value {
    serde_json::from_str(text).unwrap()
}

fn pending(step: FetchStep) -> PendingFetch {
    match step {
        FetchStep::Request(pending) => pending,
        other => panic!("a request was expected, not {other:?}"),
    }
}

fn hit(step: FetchStep) -> Value {
    match step {
        FetchStep::Hit(payload) => payload,
        other => panic!("a cache hit was expected, not {other:?}"),
    }
}

fn rejected(step: FetchStep) -> FetchError {
    match step {
        FetchStep::Rejected(error) => error,
        other => panic!("a refusal was expected, not {other:?}"),
    }
}

#[test]
fn test_default_content() {
    let content = UmbracoClient::get_default_home_page_content();
    assert_eq!(content.get("heading").unwrap(), &Value::String("Hello World!".to_string()));
}

#[test]
fn the_default_content_holds_every_entry() {
    let content = UmbracoClient::get_default_home_page_content();
    let expected = parse(
        r##"{
        "heading": "Hello World!",
        "description": "Welcome to our multi-platform demo showcasing C# (.NET), Node.js, Python, Java, Go, and Rust implementations.",
        "canvasSectionTitle": "Collaborative Canvas",
        "canvasDescription": "Try our real-time collaborative drawing canvas! Draw together with others across different platforms.",
        "launchCanvasButtonText": "Launch Canvas",
        "showQrCodeSection": true,
        "qrCodeButtonText": "Show QR Codes",
        "platformLinksTitle": "Try Other Platforms",
        "showPlatformNavigation": true,
        "showServerInfo": true,
        "backgroundGradientStart": "#667eea",
        "backgroundGradientEnd": "#764ba2",
        "seoTitle": "Multi-Platform Demo",
        "seoDescription": "A demonstration of the same application built with multiple platforms.",
        "seoKeywords": "multi-platform, demo"
    }"##,
    );
    assert_eq!(content.len(), 15);
    assert_eq!(Value::Object(content), expected);
}

#[test]
fn a_disabled_client_refuses() {
    let client = client_with("demo", "secret", false, 300);
    let step = client.fetch_content("homePage", Some(QueryOptions::new()), 0);
    assert_eq!(rejected(step), FetchError::Disabled);
    assert_eq!(rejected(client.fetch_home_page(0)), FetchError::Disabled);
}

#[test]
fn a_disabled_client_refuses_before_it_looks_at_the_credentials() {
    let client = client_with("", "", false, 300);
    assert_eq!(rejected(client.fetch_content("homePage", None, 0)), FetchError::Disabled);
}

#[test]
fn a_disabled_client_refuses_what_it_has_cached() {
    let mut warm = ready_client(300);
    let asked = pending(warm.fetch_home_page(0));
    warm.complete_fetch(asked.cache_key.clone(), envelope("1"), 0);
    assert_eq!(hit(warm.fetch_home_page(1)), parse("1"));
    let mut cold = client_with("demo", "secret", false, 300);
    cold.complete_fetch(asked.cache_key, envelope("1"), 0);
    assert_eq!(rejected(cold.fetch_home_page(1)), FetchError::Disabled);
}

#[test]
fn missing_credentials_are_refused() {
    for (alias, key) in [("", "secret"), ("demo", ""), ("", "")] {
        let mut client = client_with(alias, key, true, 300);
        let step = client.fetch_content("homePage", None, 0);
        assert_eq!(rejected(step), FetchError::MisconfiguredCredentials);
        client.complete_fetch("homePage:{}".to_string(), envelope("1"), 0);
        let again = client.fetch_content("homePage", None, 1);
        assert_eq!(rejected(again), FetchError::MisconfiguredCredentials);
    }
}

#[test]
fn a_miss_hands_out_the_request() {
    let client = ready_client(300);
    let mut options = QueryOptions::new();
    options.insert("fetch".to_string(), "children".to_string());
    let asked = pending(client.fetch_content("article", Some(options), 0));
    assert_eq!(asked.cache_key, "article:{\"fetch\":\"children\"}");
    assert_eq!(asked.request.url, "https://cms.test/demo/content/type/article");
    assert_eq!(
        asked.request.headers,
        vec![
            ("Accept".to_string(), "application/json".to_string()),
            ("Umb-Project-Alias".to_string(), "demo".to_string()),
            ("Api-Key".to_string(), "secret".to_string()),
        ]
    );
    assert_eq!(asked.request.query.pairs(), &vec![("fetch".to_string(), "children".to_string())]);
    assert_eq!(asked.request.timeout_seconds, 5);
}

#[test]
fn the_home_page_is_content_without_options() {
    let client = ready_client(300);
    let asked = pending(client.fetch_home_page(0));
    assert_eq!(asked.cache_key, "homePage:{}");
    assert_eq!(asked.request.url, "https://cms.test/demo/content/type/homePage");
    assert!(asked.request.query.is_empty());
    let same = pending(client.fetch_content("homePage", None, 0));
    assert_eq!(same.cache_key, asked.cache_key);
    assert_eq!(same.request.url, asked.request.url);
}

#[test]
fn a_fetched_item_is_served_from_the_cache_until_the_ttl() {
    let mut client = ready_client(300);
    let asked = pending(client.fetch_home_page(1_000));
    let done = client.complete_fetch(asked.cache_key, envelope("{\"heading\":\"one\"}"), 2_000);
    assert!(matches!(&done, Completed::Fresh(payload) if *payload == parse("{\"heading\":\"one\"}")));
    assert_eq!(done.into_result(), Ok(parse("{\"heading\":\"one\"}")));
    assert_eq!(hit(client.fetch_home_page(2_000)), parse("{\"heading\":\"one\"}"));
    assert_eq!(hit(client.fetch_home_page(2_000 + 300 * SECOND - 1)), parse("{\"heading\":\"one\"}"));
    let again = pending(client.fetch_home_page(2_000 + 300 * SECOND));
    assert_eq!(again.cache_key, "homePage:{}");
    let done = client.complete_fetch(again.cache_key, envelope("{\"heading\":\"two\"}"), 400 * SECOND);
    assert!(matches!(done, Completed::Fresh(payload) if payload == parse("{\"heading\":\"two\"}")));
    assert_eq!(hit(client.fetch_home_page(400 * SECOND + 1)), parse("{\"heading\":\"two\"}"));
    assert_eq!(client.cache().get("homePage:{}", 401 * SECOND), Some((parse("{\"heading\":\"two\"}"), SECOND)));
}

#[test]
fn a_ttl_of_zero_never_serves_from_the_cache() {
    let mut client = ready_client(0);
    let asked = pending(client.fetch_home_page(0));
    client.complete_fetch(asked.cache_key, envelope("1"), 0);
    assert_eq!(pending(client.fetch_home_page(0)).cache_key, "homePage:{}");
}

#[test]
fn a_clock_that_reads_earlier_counts_as_no_time_passed() {
    let mut client = ready_client(1);
    let asked = pending(client.fetch_home_page(50 * SECOND));
    client.complete_fetch(asked.cache_key, envelope("1"), 50 * SECOND);
    assert_eq!(hit(client.fetch_home_page(10 * SECOND)), parse("1"));
}

#[test]
fn entries_are_kept_apart_by_type_and_options() {
    let mut client = ready_client(300);
    let home = pending(client.fetch_content("homePage", None, 0));
    client.complete_fetch(home.cache_key, envelope("\"home\""), 0);
    let mut options = QueryOptions::new();
    options.insert("depth".to_string(), "2".to_string());
    let deep = pending(client.fetch_content("homePage", Some(options), 0));
    assert_eq!(deep.cache_key, "homePage:{\"depth\":\"2\"}");
    client.complete_fetch(deep.cache_key, envelope("\"deep\""), 0);
    assert!(matches!(client.fetch_content("article", None, 1), FetchStep::Request(_)));
    assert_eq!(hit(client.fetch_content("homePage", None, 1)), parse("\"home\""));
    let mut options = QueryOptions::new();
    options.insert("depth".to_string(), "2".to_string());
    assert_eq!(hit(client.fetch_content("homePage", Some(options), 1)), parse("\"deep\""));
}

#[test]
fn a_stale_entry_is_served_when_the_request_fails() {
    let failures = [
        (HttpOutcome::TimedOut, FetchError::Timeout),
        (
            HttpOutcome::Response { status: 503, body: "down".to_string() },
            FetchError::UpstreamError { status: 503, body: "down".to_string() },
        ),
        (ok("<html>"), FetchError::DecodeError),
    ];
    for (outcome, error) in failures {
        let mut client = ready_client(300);
        let asked = pending(client.fetch_home_page(0));
        client.complete_fetch(asked.cache_key, envelope("\"kept\""), 0);
        let later = 10_000 * SECOND;
        let again = pending(client.fetch_home_page(later));
        let done = client.complete_fetch(again.cache_key, outcome, later);
        match done {
            Completed::Stale { payload, cause } => {
                assert_eq!(payload, parse("\"kept\""));
                assert_eq!(cause, error);
            },
            other => panic!("stale data was expected, not {other:?}"),
        }
        assert_eq!(client.cache().get("homePage:{}", later), Some((parse("\"kept\""), later)));
        assert!(matches!(client.fetch_home_page(later), FetchStep::Request(_)));
    }
}

#[test]
fn stale_data_is_served_like_fresh_data() {
    let stale = Completed::Stale { payload: parse("7"), cause: FetchError::Timeout };
    assert_eq!(stale.into_result(), Ok(parse("7")));
    assert_eq!(Completed::Fresh(parse("8")).into_result(), Ok(parse("8")));
    assert_eq!(Completed::Failed(FetchError::DecodeError).into_result(), Err(FetchError::DecodeError));
}

#[test]
fn a_failure_without_an_entry_reaches_the_caller() {
    let failures = [
        (HttpOutcome::TimedOut, FetchError::Timeout),
        (
            HttpOutcome::Response { status: 404, body: "not found".to_string() },
            FetchError::UpstreamError { status: 404, body: "not found".to_string() },
        ),
        (ok("{\"items\":[]}"), FetchError::DecodeError),
    ];
    for (outcome, error) in failures {
        let mut client = ready_client(300);
        let asked = pending(client.fetch_home_page(0));
        let done = client.complete_fetch(asked.cache_key, outcome, 1);
        assert!(matches!(&done, Completed::Failed(found) if *found == error));
        assert_eq!(done.into_result(), Err(error));
        assert_eq!(client.cache().get("homePage:{}", 2), None);
    }
}

#[test]
fn an_empty_collection_is_empty_content() {
    let mut client = ready_client(300);
    let asked = pending(client.fetch_home_page(0));
    let done = client.complete_fetch(asked.cache_key, envelope(""), 1);
    assert!(matches!(done, Completed::Failed(FetchError::EmptyContent)));
    assert_eq!(client.cache().get("homePage:{}", 2), None);
}

#[test]
fn an_empty_collection_is_empty_content_beside_a_stale_entry() {
    let mut client = ready_client(1);
    let asked = pending(client.fetch_home_page(0));
    client.complete_fetch(asked.cache_key, envelope("\"old\""), 0);
    let again = pending(client.fetch_home_page(5 * SECOND));
    let done = client.complete_fetch(again.cache_key, envelope(""), 5 * SECOND);
    assert!(matches!(done, Completed::Failed(FetchError::EmptyContent)));
    assert_eq!(client.cache().get("homePage:{}", 5 * SECOND), Some((parse("\"old\""), 5 * SECOND)));
}

#[test]
fn the_first_item_is_taken_in_the_order_of_the_reply() {
    let mut client = ready_client(300);
    let asked = pending(client.fetch_home_page(0));
    let done = client.complete_fetch(asked.cache_key, envelope("{\"n\":3},{\"n\":1},{\"n\":2}"), 0);
    assert_eq!(done.into_result(), Ok(parse("{\"n\":3}")));
    assert_eq!(hit(client.fetch_home_page(1)), parse("{\"n\":3}"));
}

#[test]
fn clearing_the_cache_forces_the_next_request() {
    let mut client = ready_client(300);
    let asked = pending(client.fetch_home_page(0));
    client.complete_fetch(asked.cache_key, envelope("1"), 0);
    assert_eq!(hit(client.fetch_home_page(1)), parse("1"));
    client.clear_cache();
    assert_eq!(client.cache().get("homePage:{}", 1), None);
    assert_eq!(pending(client.fetch_home_page(1)).cache_key, "homePage:{}");
    assert_eq!(client.config().project_alias(), "demo");
    let done = client.complete_fetch("homePage:{}".to_string(), HttpOutcome::TimedOut, 2);
    assert!(matches!(done, Completed::Failed(FetchError::Timeout)));
}

#[test]
fn overlapping_misses_each_get_the_request_and_the_last_reply_stays() {
    let mut client = ready_client(300);
    let first = pending(client.fetch_home_page(0));
    let second = pending(client.fetch_home_page(1));
    assert_eq!(first.cache_key, second.cache_key);
    assert_eq!(first.request.url, second.request.url);
    let done = client.complete_fetch(second.cache_key, envelope("\"second\""), 10);
    assert_eq!(done.into_result(), Ok(parse("\"second\"")));
    let done = client.complete_fetch(first.cache_key, envelope("\"first\""), 20);
    assert_eq!(done.into_result(), Ok(parse("\"first\"")));
    assert_eq!(hit(client.fetch_home_page(30)), parse("\"first\""));
    assert_eq!(client.cache().get("homePage:{}", 30), Some((parse("\"first\""), 10)));
}

#[test]
fn platform_configs_are_requested_every_time() {
    let mut client = ready_client(300);
    let first = client.fetch_platform_configs();
    assert_eq!(first.url, "https://cms.test/demo/content/type/platformConfig");
    assert_eq!(first.query.pairs(), &vec![("sort".to_string(), "sortOrder:asc".to_string())]);
    assert_eq!(first.timeout_seconds, 5);
    assert_eq!(first.headers.len(), 3);
    let configs = UmbracoClient::complete_platform_configs(envelope("{\"sortOrder\":1},{\"sortOrder\":2}"));
    assert_eq!(configs, Ok(vec![parse("{\"sortOrder\":1}"), parse("{\"sortOrder\":2}")]));
    client.complete_fetch(
        "platformConfig:{\"sort\":\"sortOrder:asc\"}".to_string(),
        envelope("{\"sortOrder\":1}"),
        0,
    );
    let second = client.fetch_platform_configs();
    assert_eq!(second.url, first.url);
    assert_eq!(second.query.pairs(), first.query.pairs());
}

#[test]
fn platform_configs_are_requested_by_a_disabled_client_too() {
    let client = client_with("", "", false, 300);
    let request = client.fetch_platform_configs();
    assert_eq!(request.url, "https://cms.test//content/type/platformConfig");
}

#[test]
fn platform_configs_keep_the_whole_collection() {
    assert_eq!(UmbracoClient::complete_platform_configs(envelope("")), Ok(vec![]));
    assert_eq!(
        UmbracoClient::complete_platform_configs(envelope("3,1,2")),
        Ok(vec![parse("3"), parse("1"), parse("2")])
    );
    assert_eq!(
        UmbracoClient::complete_platform_configs(HttpOutcome::TimedOut),
        Err(FetchError::Timeout)
    );
    assert_eq!(
        UmbracoClient::complete_platform_configs(HttpOutcome::Response {
            status: 500,
            body: "boom".to_string()
        }),
        Err(FetchError::UpstreamError { status: 500, body: "boom".to_string() })
    );
    assert_eq!(UmbracoClient::complete_platform_configs(ok("[]")), Err(FetchError::DecodeError));
}

#[test]
fn the_success_range_is_200_to_299() {
    for status in [200, 201, 204, 299] {
        assert!(is_success_status(status), "{status}");
    }
    for status in [0, 100, 199, 300, 301, 404, 500, 65535] {
        assert!(!is_success_status(status), "{status}");
    }
    assert_eq!(
        read_reply(HttpOutcome::Response { status: 199, body: "{\"_embedded\":{\"content\":[1]}}".to_string() }),
        Err(FetchError::UpstreamError {
            status: 199,
            body: "{\"_embedded\":{\"content\":[1]}}".to_string()
        })
    );
    assert_eq!(
        read_reply(HttpOutcome::Response { status: 299, body: "{\"_embedded\":{\"content\":[1]}}".to_string() }),
        Ok(vec![parse("1")])
    );
}

#[test]
fn an_envelope_is_an_object_with_embedded_content() {
    assert_eq!(decode_envelope("{\"_embedded\":{\"content\":[]}}"), Some(vec![]));
    assert_eq!(
        decode_envelope(" {\"_totalItems\":2,\"_embedded\":{\"content\":[{\"a\":null},[1.5,\"x\"]],\"more\":1},\"_links\":{}} "),
        Some(vec![parse("{\"a\":null}"), parse("[1.5,\"x\"]")])
    );
}

#[test]
fn other_bodies_are_no_envelope() {
    for body in [
        "",
        "not json",
        "null",
        "[]",
        "{}",
        "{\"_embedded\":null}",
        "{\"_embedded\":[]}",
        "{\"_embedded\":{}}",
        "{\"_embedded\":{\"content\":null}}",
        "{\"_embedded\":{\"content\":{}}}",
        "{\"_embedded\":{\"content\":\"[]\"}}",
        "{\"embedded\":{\"content\":[]}}",
        "{\"_embedded\":{\"Content\":[]}}",
        "{\"content\":[]}",
        "{\"_embedded\":{\"content\":[]}} trailing",
        "{\"_embedded\":{\"content\":[1,]}}",
    ] {
        assert_eq!(decode_envelope(body), None, "{body:?}");
        assert_eq!(read_reply(ok(body)), Err(FetchError::DecodeError), "{body:?}");
    }
}
