//! What holds of the client over all its states, proved from the model that
//! the contracts of `config` and `client` are stated in.

use vstd::prelude::*;

use crate::cache::{age, within_ttl, CacheEntry, NANOS_PER_SECOND};
use crate::client::{content_request, ClientState, Completion, Step};
use crate::config::{environment_settings, parsed_seconds, reads_as_false, resolved_settings};
use crate::config::{Environment, UmbracoConfig, DEFAULT_API_URL, DEFAULT_CACHE_TTL};
use crate::error::Failure;
use crate::options::cache_key_text;
use crate::reply::{reply_items, Reply};

verus! {

/// A configuration that states nothing resolves as no configuration does:
/// every text is the environment's, else its default (empty for the
/// project alias and the API key, the public host for the base URL); each
/// switch is on unless the environment's text is the word "false"; the
/// time-to-live is the environment's where it reads as a number of seconds,
/// else the default.
pub proof fn lemma_unstated_settings_follow_environment(
    config: UmbracoConfig,
    environment: Environment,
)
    requires
        config.states_nothing(),
    ensures
        resolved_settings(config, environment) == environment_settings(environment),
        environment_settings(environment).project_alias == (match environment.project_alias {
            Some(text) => text@,
            None => Seq::<char>::empty(),
        }),
        environment_settings(environment).api_key == (match environment.api_key {
            Some(text) => text@,
            None => Seq::<char>::empty(),
        }),
        environment_settings(environment).api_url == (match environment.api_url {
            Some(text) => text@,
            None => DEFAULT_API_URL@,
        }),
        environment_settings(environment).enabled == (match environment.enabled {
            Some(text) => !reads_as_false(text@),
            None => true,
        }),
        environment_settings(environment).fallback_enabled == (match environment.fallback_enabled {
            Some(text) => !reads_as_false(text@),
            None => true,
        }),
        environment_settings(environment).cache_ttl == (match environment.cache_ttl {
            Some(text) => match parsed_seconds(text@) {
                Some(seconds) => seconds,
                None => DEFAULT_CACHE_TTL,
            },
            None => DEFAULT_CACHE_TTL,
        }),
{
}

/// After a reply with items, their first is served from the cache for as
/// long as its age is below the time-to-live, without a request; from then
/// on the request is handed out again. With a time-to-live above zero the
/// entry is fresh at the moment it is stored, and it is stale once that
/// many seconds have passed.
pub proof fn lemma_served_from_cache_until_ttl(
    state: ClientState,
    content_type: Seq<char>,
    options: Map<Seq<char>, Seq<char>>,
    reply: Reply,
    stored: u64,
    now: u64,
)
    requires
        state.settings.enabled,
        !state.credentials_missing(),
        reply_items(reply) matches Ok(items) && items.len() > 0,
    ensures
        ({
            let key = cache_key_text(content_type, options);
            let first = reply_items(reply)->Ok_0[0];
            let next = state.after_completion(key, reply, stored);
            &&& state.completion(key, reply) == Completion::Fresh(first)
            &&& next.cache[key] == CacheEntry { payload: first, stored_at: stored }
            &&& within_ttl(age(stored, now), state.settings.cache_ttl) ==> next.begin(
                content_type,
                options,
                now,
            ) == Step::Hit(first)
            &&& !within_ttl(age(stored, now), state.settings.cache_ttl) ==> next.begin(
                content_type,
                options,
                now,
            ) == Step::Request {
                cache_key: key,
                request: content_request(state.settings, content_type, options),
            }
            &&& state.settings.cache_ttl > 0 ==> within_ttl(
                age(stored, stored),
                state.settings.cache_ttl,
            )
            &&& now - stored >= state.settings.cache_ttl * NANOS_PER_SECOND ==> !within_ttl(
                age(stored, now),
                state.settings.cache_ttl,
            )
        }),
{
}

/// A reply with items that ends a request replaces the entry under the key
/// whole: the cache then holds the first item with the new clock reading,
/// whatever it held before, and every other key keeps its entry.
pub proof fn lemma_refetch_replaces_entry(
    state: ClientState,
    key: Seq<char>,
    reply: Reply,
    now: u64,
    other: Seq<char>,
)
    requires
        reply_items(reply) matches Ok(items) && items.len() > 0,
        other != key,
    ensures
        ({
            let next = state.after_completion(key, reply, now);
            &&& next.settings == state.settings
            &&& next.cache.contains_key(key)
            &&& next.cache[key] == CacheEntry {
                payload: reply_items(reply)->Ok_0[0],
                stored_at: now,
            }
            &&& next.cache.contains_key(other) == state.cache.contains_key(other)
            &&& state.cache.contains_key(other) ==> next.cache[other] == state.cache[other]
        }),
{
}

/// A reply fails only as a request can fail: by a timeout, by a status
/// outside the success range, or by a body that is no envelope. It never
/// fails as a refusal or as empty content.
pub proof fn lemma_reply_fails_as_a_request(reply: Reply)
    ensures
        reply_items(reply) matches Err(failure) ==> failure.from_transport(),
{
}

/// Where the request fails and the cache holds an entry under the key, the
/// entry's payload is served and marked as stale, however old it is, and
/// the entry stays as it was.
pub proof fn lemma_stale_entry_outlives_failure(
    state: ClientState,
    key: Seq<char>,
    reply: Reply,
    now: u64,
)
    requires
        state.cache.contains_key(key),
        reply_items(reply) is Err,
    ensures
        state.completion(key, reply) == (Completion::Stale {
            payload: state.cache[key].payload,
            cause: reply_items(reply)->Err_0,
        }),
        reply_items(reply)->Err_0.from_transport(),
        state.after_completion(key, reply, now) == state,
{
}

/// Where the request fails and the cache holds nothing under the key, the
/// failure of the request is what the caller gets, and the cache stays
/// as it was.
pub proof fn lemma_failure_without_entry_surfaces(
    state: ClientState,
    key: Seq<char>,
    reply: Reply,
    now: u64,
)
    requires
        !state.cache.contains_key(key),
        reply_items(reply) is Err,
    ensures
        state.completion(key, reply) == Completion::Failed(reply_items(reply)->Err_0),
        state.after_completion(key, reply, now) == state,
{
}

/// A reply without items fails as empty content, whether or not the cache
/// holds an entry, and leaves the cache as it was.
pub proof fn lemma_empty_reply_fails(state: ClientState, key: Seq<char>, reply: Reply, now: u64)
    requires
        reply_items(reply) matches Ok(items) && items.len() == 0,
    ensures
        state.completion(key, reply) == Completion::Failed(Failure::EmptyContent),
        state.after_completion(key, reply, now) == state,
{
}

/// A client that is switched on and lacks the project alias or the API key
/// refuses every call for content, and hands out no request.
pub proof fn lemma_missing_credentials_refused(
    state: ClientState,
    content_type: Seq<char>,
    options: Map<Seq<char>, Seq<char>>,
    now: u64,
)
    requires
        state.settings.enabled,
        state.credentials_missing(),
    ensures
        state.begin(content_type, options, now) == Step::Rejected(
            Failure::MisconfiguredCredentials,
        ),
{
}

/// A client that is switched off refuses every call for content, whatever
/// its credentials and its cache.
pub proof fn lemma_disabled_refused(
    state: ClientState,
    content_type: Seq<char>,
    options: Map<Seq<char>, Seq<char>>,
    now: u64,
)
    requires
        !state.settings.enabled,
    ensures
        state.begin(content_type, options, now) == Step::Rejected(Failure::Disabled),
{
}

/// Once the cache is cleared, a client that is switched on and has its
/// credentials hands out the request for every call, whatever the cache
/// held and however fresh it was.
pub proof fn lemma_clear_forces_request(
    state: ClientState,
    content_type: Seq<char>,
    options: Map<Seq<char>, Seq<char>>,
    now: u64,
)
    requires
        state.settings.enabled,
        !state.credentials_missing(),
    ensures
        state.cleared().begin(content_type, options, now) == (Step::Request {
            cache_key: cache_key_text(content_type, options),
            request: content_request(state.settings, content_type, options),
        }),
{
}

/// Two calls for the same content that begin while the cache holds no entry
/// for it are both handed the request: the first does not hold back the
/// second. When both requests have ended with items, the cache holds the
/// first item of the reply that ended last.
pub proof fn lemma_overlapping_misses_each_request(
    state: ClientState,
    content_type: Seq<char>,
    options: Map<Seq<char>, Seq<char>>,
    first_begun: u64,
    second_begun: u64,
    first_reply: Reply,
    first_ended: u64,
    second_reply: Reply,
    second_ended: u64,
)
    requires
        state.settings.enabled,
        !state.credentials_missing(),
        !state.cache.contains_key(cache_key_text(content_type, options)),
        reply_items(first_reply) matches Ok(items) && items.len() > 0,
        reply_items(second_reply) matches Ok(items) && items.len() > 0,
    ensures
        ({
            let key = cache_key_text(content_type, options);
            let request = Step::Request {
                cache_key: key,
                request: content_request(state.settings, content_type, options),
            };
            let between = state.after_completion(key, first_reply, first_ended);
            let last = between.after_completion(key, second_reply, second_ended);
            &&& state.begin(content_type, options, first_begun) == request
            &&& state.begin(content_type, options, second_begun) == request
            &&& between.completion(key, second_reply) == Completion::Fresh(
                reply_items(second_reply)->Ok_0[0],
            )
            &&& last.cache[key] == CacheEntry {
                payload: reply_items(second_reply)->Ok_0[0],
                stored_at: second_ended,
            }
        }),
{
}

/// The request for the platform configurations is the same in every state
/// of the cache: two states with the same settings hand out the same
/// request, and so do a state and the one that follows the end of any
/// request.
pub proof fn lemma_platform_request_ignores_cache(
    state: ClientState,
    other: ClientState,
    key: Seq<char>,
    reply: Reply,
    now: u64,
)
    requires
        state.settings == other.settings,
    ensures
        state.platform_request() == other.platform_request(),
        state.after_completion(key, reply, now).platform_request() == state.platform_request(),
{
}

} // verus!
