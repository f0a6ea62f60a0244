//! Client-side access layer for a headless-CMS content delivery API.
//!
//! The crate holds the decisions of the client: how a configuration is
//! resolved, how a cache key is derived, when a cached payload is served,
//! which request is issued, and what becomes of the reply. Sending the
//! request is left to the caller, who hands the reply back.
//!
//! - `config`: resolving the settings from explicit values, the environment
//!   and the defaults.
//! - `options`: query options and the cache key.
//! - `cache`: the cache store.
//! - `reply`: reading what came back from a request.
//! - `client`: the client itself.
//! - `laws`: what holds of the client in every state.
//! - `json`: the calls into `serde_json`, which are believed.
//! - `text_map`: the map from names to values that the cache and the
//!   options are kept in.

pub mod cache;
pub mod client;
pub mod config;
pub mod error;
pub mod json;
pub mod laws;
pub mod options;
pub mod reply;
pub mod text_map;

pub use cache::{CacheEntry, CacheStore};
pub use client::{Completed, FetchStep, HttpRequest, PendingFetch, UmbracoClient};
pub use config::{ClientConfig, Environment, UmbracoConfig};
pub use error::FetchError;
pub use options::QueryOptions;
pub use reply::HttpOutcome;
