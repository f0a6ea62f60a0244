//! The content client: cache first, then the request, then the fallback.
//!
//! The client never sends anything itself. Asked for content, it answers
//! from the cache, refuses, or hands out the request to send; told how the
//! request ended, it updates the cache and says what to serve. Between the
//! two the client is free: other requests may begin and end.

use vstd::prelude::*;
use vstd::string::StringExecFns;

use crate::cache::{age, is_within_ttl, within_ttl, CacheEntry, CacheStore};
use crate::config::{resolve, ClientConfig, Environment, Settings, UmbracoConfig};
use crate::config::{environment_settings, resolved_settings};
use crate::error::{Failure, FetchError};
use crate::json::{flag, flag_value, new_object, object_entries, set_entry, text, text_value};
use crate::options::{cache_key, cache_key_text, options_of, QueryOptions};
use crate::reply::{read_reply, reply_items, HttpOutcome, Reply};
use serde_json::Value;

verus! {

/// Seconds after which a request is given up.
pub const REQUEST_TIMEOUT_SECONDS: u64 = 5;

/// Content type of the home page.
pub const HOME_PAGE: &'static str = "homePage";

/// Content type of the platform configurations.
pub const PLATFORM_CONFIG: &'static str = "platformConfig";

/// A request to send: a `GET` of the URL with these headers and query
/// parameters, given up after the timeout.
#[derive(Debug)]
pub struct HttpRequest {
    pub url: String,
    pub headers: Vec<(String, String)>,
    pub query: QueryOptions,
    pub timeout_seconds: u64,
}

/// An `HttpRequest` with its texts as sequences of characters.
pub struct Request {
    pub url: Seq<char>,
    pub headers: Seq<(Seq<char>, Seq<char>)>,
    pub query: Map<Seq<char>, Seq<char>>,
    pub timeout_seconds: u64,
}

/// The characters of each header's name and text.
pub open spec fn header_texts(headers: Seq<(String, String)>) -> Seq<(Seq<char>, Seq<char>)> {
    headers.map_values(|header: (String, String)| (header.0@, header.1@))
}

impl View for HttpRequest {
    type V = Request;

    open spec fn view(&self) -> Request {
        Request {
            url: self.url@,
            headers: header_texts(self.headers@),
            query: self.query@,
            timeout_seconds: self.timeout_seconds,
        }
    }
}

/// A request that was handed out, with the cache key under which its
/// result is to be stored.
#[derive(Debug)]
pub struct PendingFetch {
    pub cache_key: String,
    pub request: HttpRequest,
}

/// The client's answer to a call for content.
#[derive(Debug)]
pub enum FetchStep {
    /// The cache holds a fresh entry: this is its payload.
    Hit(Value),
    /// The call is refused.
    Rejected(FetchError),
    /// This request is to be sent and its end reported.
    Request(PendingFetch),
}

/// A `FetchStep` with its texts as sequences of characters.
pub enum Step {
    Hit(Value),
    Rejected(Failure),
    Request { cache_key: Seq<char>, request: Request },
}

impl View for FetchStep {
    type V = Step;

    open spec fn view(&self) -> Step {
        match *self {
            FetchStep::Hit(payload) => Step::Hit(payload),
            FetchStep::Rejected(error) => Step::Rejected(error@),
            FetchStep::Request(pending) => Step::Request {
                cache_key: pending.cache_key@,
                request: pending.request@,
            },
        }
    }
}

/// What is served once a request has ended.
#[derive(Debug)]
pub enum Completed {
    /// The first item of the reply, now in the cache.
    Fresh(Value),
    /// The request failed for the given cause; this is the payload that
    /// the cache still held, whatever its age.
    Stale { payload: Value, cause: FetchError },
    /// Nothing can be served.
    Failed(FetchError),
}

/// A `Completed` with its texts as sequences of characters.
pub enum Completion {
    Fresh(Value),
    Stale { payload: Value, cause: Failure },
    Failed(Failure),
}

impl View for Completed {
    type V = Completion;

    open spec fn view(&self) -> Completion {
        match *self {
            Completed::Fresh(payload) => Completion::Fresh(payload),
            Completed::Stale { payload, cause } => Completion::Stale { payload, cause: cause@ },
            Completed::Failed(error) => Completion::Failed(error@),
        }
    }
}

impl Completed {
    /// The payload to serve, or the error. Stale data is served like fresh
    /// data.
    pub fn into_result(self) -> (served: Result<Value, FetchError>)
        ensures
            match self {
                Completed::Fresh(payload) => served == Ok::<Value, FetchError>(payload),
                Completed::Stale { payload, cause } => served == Ok::<Value, FetchError>(payload),
                Completed::Failed(error) => served == Err::<Value, FetchError>(error),
            },
    {
        match self {
            Completed::Fresh(payload) => Ok(payload),
            Completed::Stale { payload, cause } => Ok(payload),
            Completed::Failed(error) => Err(error),
        }
    }
}

/// The URL of a content type: the base URL, the project alias, and the
/// content type under `content/type`.
pub open spec fn content_url(settings: Settings, content_type: Seq<char>) -> Seq<char> {
    settings.api_url + "/"@ + settings.project_alias + "/content/type/"@ + content_type
}

/// The headers of every request: JSON is asked for, and the project alias
/// and the API key identify the caller.
pub open spec fn request_headers(settings: Settings) -> Seq<(Seq<char>, Seq<char>)> {
    seq![
        ("Accept"@, "application/json"@),
        ("Umb-Project-Alias"@, settings.project_alias),
        ("Api-Key"@, settings.api_key),
    ]
}

/// The request for a content type with the given options.
pub open spec fn content_request(
    settings: Settings,
    content_type: Seq<char>,
    options: Map<Seq<char>, Seq<char>>,
) -> Request {
    Request {
        url: content_url(settings, content_type),
        headers: request_headers(settings),
        query: options,
        timeout_seconds: REQUEST_TIMEOUT_SECONDS,
    }
}

/// The options of the request for the platform configurations: the upstream
/// sorts them by ascending sort order.
pub open spec fn platform_options() -> Map<Seq<char>, Seq<char>> {
    Map::<Seq<char>, Seq<char>>::empty().insert("sort"@, "sortOrder:asc"@)
}

/// The entries of the default home page.
pub open spec fn default_home_page_entries() -> Map<Seq<char>, Value> {
    Map::<Seq<char>, Value>::empty().insert("heading"@, text_value("Hello World!"@)).insert(
        "description"@,
        text_value(
            "Welcome to our multi-platform demo showcasing C# (.NET), Node.js, Python, Java, Go, and Rust implementations."@,
        ),
    ).insert("canvasSectionTitle"@, text_value("Collaborative Canvas"@)).insert(
        "canvasDescription"@,
        text_value(
            "Try our real-time collaborative drawing canvas! Draw together with others across different platforms."@,
        ),
    ).insert("launchCanvasButtonText"@, text_value("Launch Canvas"@)).insert(
        "showQrCodeSection"@,
        flag_value(true),
    ).insert("qrCodeButtonText"@, text_value("Show QR Codes"@)).insert(
        "platformLinksTitle"@,
        text_value("Try Other Platforms"@),
    ).insert("showPlatformNavigation"@, flag_value(true)).insert(
        "showServerInfo"@,
        flag_value(true),
    ).insert("backgroundGradientStart"@, text_value("#667eea"@)).insert(
        "backgroundGradientEnd"@,
        text_value("#764ba2"@),
    ).insert("seoTitle"@, text_value("Multi-Platform Demo"@)).insert(
        "seoDescription"@,
        text_value("A demonstration of the same application built with multiple platforms."@),
    ).insert("seoKeywords"@, text_value("multi-platform, demo"@))
}

/// The state of a client: its settings, which never change, and what its
/// cache holds.
pub struct ClientState {
    pub settings: Settings,
    pub cache: Map<Seq<char>, CacheEntry>,
}

impl ClientState {
    /// The project alias or the API key is empty.
    pub open spec fn credentials_missing(self) -> bool {
        self.settings.project_alias.len() == 0 || self.settings.api_key.len() == 0
    }

    /// The cache holds an entry under the key that is younger than the
    /// time-to-live.
    pub open spec fn holds_fresh(self, key: Seq<char>, now: u64) -> bool {
        self.cache.contains_key(key) && within_ttl(
            age(self.cache[key].stored_at, now),
            self.settings.cache_ttl,
        )
    }

    /// The answer to a call for content. A client that is switched off
    /// refuses; so does one without credentials; neither looks at the cache.
    /// Otherwise a fresh cache entry is served, and without one the request
    /// is handed out.
    pub open spec fn begin(
        self,
        content_type: Seq<char>,
        options: Map<Seq<char>, Seq<char>>,
        now: u64,
    ) -> Step {
        if !self.settings.enabled {
            Step::Rejected(Failure::Disabled)
        } else if self.credentials_missing() {
            Step::Rejected(Failure::MisconfiguredCredentials)
        } else if self.holds_fresh(cache_key_text(content_type, options), now) {
            Step::Hit(self.cache[cache_key_text(content_type, options)].payload)
        } else {
            Step::Request {
                cache_key: cache_key_text(content_type, options),
                request: content_request(self.settings, content_type, options),
            }
        }
    }

    /// What is served once the request for a key has ended. A reply with
    /// items serves the first; one without items fails. A failed request
    /// serves what the cache holds under the key, whatever its age, and
    /// fails with its own failure where the cache holds nothing.
    pub open spec fn completion(self, key: Seq<char>, reply: Reply) -> Completion {
        match reply_items(reply) {
            Ok(items) => if items.len() == 0 {
                Completion::Failed(Failure::EmptyContent)
            } else {
                Completion::Fresh(items[0])
            },
            Err(cause) => if self.cache.contains_key(key) {
                Completion::Stale { payload: self.cache[key].payload, cause }
            } else {
                Completion::Failed(cause)
            },
        }
    }

    /// The state once the request for a key has ended. A reply with items
    /// puts the first under the key, stored now; anything else leaves the
    /// cache as it was.
    pub open spec fn after_completion(self, key: Seq<char>, reply: Reply, now: u64) -> ClientState {
        match reply_items(reply) {
            Ok(items) => if items.len() == 0 {
                self
            } else {
                ClientState {
                    settings: self.settings,
                    cache: self.cache.insert(key, CacheEntry { payload: items[0], stored_at: now }),
                }
            },
            Err(cause) => self,
        }
    }

    /// The state once the cache has been cleared.
    pub open spec fn cleared(self) -> ClientState {
        ClientState { settings: self.settings, cache: Map::empty() }
    }

    /// The request for the platform configurations. It depends on the
    /// settings alone.
    pub open spec fn platform_request(self) -> Request {
        content_request(self.settings, PLATFORM_CONFIG@, platform_options())
    }
}

/// The content client.
#[derive(Debug)]
pub struct UmbracoClient {
    config: ClientConfig,
    cache: CacheStore,
}

impl View for UmbracoClient {
    type V = ClientState;

    closed spec fn view(&self) -> ClientState {
        ClientState { settings: self.config@, cache: self.cache@ }
    }
}

impl UmbracoClient {
    /// Makes a client. Its settings are resolved from the configuration and
    /// the environment; its cache is empty.
    pub fn new(config: Option<UmbracoConfig>, environment: Environment) -> (client: Self)
        ensures
            client@.settings == (match config {
                Some(stated) => resolved_settings(stated, environment),
                None => environment_settings(environment),
            }),
            client@.cache == Map::<Seq<char>, CacheEntry>::empty(),
    {
        UmbracoClient { config: resolve(config, environment), cache: CacheStore::new() }
    }

    /// The client's settings.
    pub fn config(&self) -> (config: &ClientConfig)
        ensures
            config@ == self@.settings,
    {
        &self.config
    }

    /// The client's cache.
    pub fn cache(&self) -> (cache: &CacheStore)
        ensures
            cache@ == self@.cache,
    {
        &self.cache
    }

    /// Builds the request for a content type.
    fn request_for(&self, content_type: &str, options: QueryOptions) -> (request: HttpRequest)
        ensures
            request@ == content_request(self@.settings, content_type@, options@),
    {
        let mut url = String::from_str(self.config.api_url());
        url.append("/");
        url.append(self.config.project_alias());
        url.append("/content/type/");
        url.append(content_type);
        let mut headers: Vec<(String, String)> = Vec::new();
        headers.push((String::from_str("Accept"), String::from_str("application/json")));
        headers.push(
            (String::from_str("Umb-Project-Alias"), String::from_str(self.config.project_alias())),
        );
        headers.push((String::from_str("Api-Key"), String::from_str(self.config.api_key())));
        assert(header_texts(headers@) =~= request_headers(self@.settings));
        HttpRequest { url, headers, query: options, timeout_seconds: REQUEST_TIMEOUT_SECONDS }
    }

    /// Answers a call for content of a type with options, at the given
    /// clock reading. The cache is read and not changed.
    pub fn fetch_content(&self, content_type: &str, options: Option<QueryOptions>, now: u64) -> (step:
        FetchStep)
        ensures
            step@ == self@.begin(content_type@, options_of(options), now),
    {
        if !self.config.enabled() {
            return FetchStep::Rejected(FetchError::Disabled);
        }
        if self.config.project_alias().is_empty() || self.config.api_key().is_empty() {
            return FetchStep::Rejected(FetchError::MisconfiguredCredentials);
        }
        let options = match options {
            Some(given) => given,
            None => QueryOptions::new(),
        };
        let key = cache_key(content_type, &options);
        match self.cache.get(key.as_str(), now) {
            Some((payload, age)) => {
                if is_within_ttl(age, self.config.cache_ttl()) {
                    return FetchStep::Hit(payload);
                }
            },
            None => {},
        }
        let request = self.request_for(content_type, options);
        FetchStep::Request(PendingFetch { cache_key: key, request })
    }

    /// Takes in how the request for a cache key ended, at the given clock
    /// reading, and says what to serve. Only a reply with items changes
    /// the cache.
    pub fn complete_fetch(&mut self, cache_key: String, outcome: HttpOutcome, now: u64) -> (done:
        Completed)
        ensures
            done@ == old(self)@.completion(cache_key@, outcome@),
            final(self)@ == old(self)@.after_completion(cache_key@, outcome@, now),
    {
        match read_reply(outcome) {
            Ok(items) => {
                if items.len() == 0 {
                    return Completed::Failed(FetchError::EmptyContent);
                }
                let payload = items[0].clone();
                self.cache.put(cache_key, payload.clone(), now);
                Completed::Fresh(payload)
            },
            Err(cause) => match self.cache.get(cache_key.as_str(), now) {
                Some((payload, age)) => Completed::Stale { payload, cause },
                None => Completed::Failed(cause),
            },
        }
    }

    /// Answers a call for the home page: content of type `homePage` without
    /// options.
    pub fn fetch_home_page(&self, now: u64) -> (step: FetchStep)
        ensures
            step@ == self@.begin(HOME_PAGE@, Map::empty(), now),
    {
        self.fetch_content(HOME_PAGE, None, now)
    }

    /// Hands out the request for the platform configurations. The answer is
    /// always a request: the cache plays no part, nor do the switch and the
    /// credentials.
    pub fn fetch_platform_configs(&self) -> (request: HttpRequest)
        ensures
            request@ == self@.platform_request(),
    {
        let mut options = QueryOptions::new();
        options.insert(String::from_str("sort"), String::from_str("sortOrder:asc"));
        self.request_for(PLATFORM_CONFIG, options)
    }

    /// Reads the platform configurations from how their request ended: all
    /// items of the reply, in the order of the reply, or the failure of
    /// the request. No cache is read or written.
    pub fn complete_platform_configs(outcome: HttpOutcome) -> (configs: Result<
        Vec<Value>,
        FetchError,
    >)
        ensures
            match reply_items(outcome@) {
                Ok(items) => configs matches Ok(read) && read@ == items,
                Err(failure) => configs matches Err(error) && error@ == failure,
            },
    {
        read_reply(outcome)
    }

    /// Empties the cache. The settings stay.
    pub fn clear_cache(&mut self)
        ensures
            final(self)@ == old(self)@.cleared(),
    {
        self.cache.clear();
    }

    /// The content of the home page to show where neither the upstream nor
    /// the cache has one. The client never serves it by itself.
    pub fn get_default_home_page_content() -> (content: serde_json::Map<String, Value>)
        ensures
            object_entries(content) == default_home_page_entries(),
    {
        let mut content = new_object();
        set_entry(&mut content, String::from_str("heading"), text(String::from_str("Hello World!")));
        set_entry(
            &mut content,
            String::from_str("description"),
            text(
                String::from_str(
                    "Welcome to our multi-platform demo showcasing C# (.NET), Node.js, Python, Java, Go, and Rust implementations.",
                ),
            ),
        );
        set_entry(
            &mut content,
            String::from_str("canvasSectionTitle"),
            text(String::from_str("Collaborative Canvas")),
        );
        set_entry(
            &mut content,
            String::from_str("canvasDescription"),
            text(
                String::from_str(
                    "Try our real-time collaborative drawing canvas! Draw together with others across different platforms.",
                ),
            ),
        );
        set_entry(
            &mut content,
            String::from_str("launchCanvasButtonText"),
            text(String::from_str("Launch Canvas")),
        );
        set_entry(&mut content, String::from_str("showQrCodeSection"), flag(true));
        set_entry(
            &mut content,
            String::from_str("qrCodeButtonText"),
            text(String::from_str("Show QR Codes")),
        );
        set_entry(
            &mut content,
            String::from_str("platformLinksTitle"),
            text(String::from_str("Try Other Platforms")),
        );
        set_entry(&mut content, String::from_str("showPlatformNavigation"), flag(true));
        set_entry(&mut content, String::from_str("showServerInfo"), flag(true));
        set_entry(
            &mut content,
            String::from_str("backgroundGradientStart"),
            text(String::from_str("#667eea")),
        );
        set_entry(
            &mut content,
            String::from_str("backgroundGradientEnd"),
            text(String::from_str("#764ba2")),
        );
        set_entry(
            &mut content,
            String::from_str("seoTitle"),
            text(String::from_str("Multi-Platform Demo")),
        );
        set_entry(
            &mut content,
            String::from_str("seoDescription"),
            text(
                String::from_str(
                    "A demonstration of the same application built with multiple platforms.",
                ),
            ),
        );
        set_entry(
            &mut content,
            String::from_str("seoKeywords"),
            text(String::from_str("multi-platform, demo")),
        );
        content
    }
}

} // verus!
