//! What comes back from a request, and what the client reads from it.
//!
//! The caller sends the request and reports how it ended. A reply with a
//! success status carries an envelope: a JSON object whose member
//! `_embedded` is an object whose member `content` is the array of content
//! items, in the order in which the upstream sent them.

use vstd::prelude::*;

use crate::error::{Failure, FetchError};
use crate::json::{array_items, elements, member, member_of, parse_json, parsed_json};
use serde_json::Value;

verus! {

/// Name of the envelope's member that holds the embedded collection.
pub const EMBEDDED_MEMBER: &'static str = "_embedded";

/// Name of the member of the embedded collection that holds the items.
pub const CONTENT_MEMBER: &'static str = "content";

/// How a request ended.
#[derive(Debug)]
pub enum HttpOutcome {
    /// No reply arrived within the timeout.
    TimedOut,
    /// A reply arrived, with this status and body.
    Response { status: u16, body: String },
}

/// An `HttpOutcome` with its body as a sequence of characters.
pub enum Reply {
    TimedOut,
    Response { status: u16, body: Seq<char> },
}

impl View for HttpOutcome {
    type V = Reply;

    open spec fn view(&self) -> Reply {
        match *self {
            HttpOutcome::TimedOut => Reply::TimedOut,
            HttpOutcome::Response { status, body } => Reply::Response { status, body: body@ },
        }
    }
}

/// The status is in the success range, 200 to 299.
pub open spec fn is_success(status: u16) -> bool {
    200 <= status && status < 300
}

/// The content items of a body that is an envelope, nothing for any other
/// body.
pub open spec fn envelope_items(body: Seq<char>) -> Option<Seq<Value>> {
    match parsed_json(body) {
        Some(document) => match member_of(document, EMBEDDED_MEMBER@) {
            Some(embedded) => match member_of(embedded, CONTENT_MEMBER@) {
                Some(content) => array_items(content),
                None => None,
            },
            None => None,
        },
        None => None,
    }
}

/// What a reply yields: the content items of a successful reply whose body
/// is an envelope, and otherwise the failure of the request.
pub open spec fn reply_items(reply: Reply) -> Result<Seq<Value>, Failure> {
    match reply {
        Reply::TimedOut => Err(Failure::Timeout),
        Reply::Response { status, body } => if !is_success(status) {
            Err(Failure::UpstreamError { status, body })
        } else {
            match envelope_items(body) {
                Some(items) => Ok(items),
                None => Err(Failure::DecodeError),
            }
        },
    }
}

/// Decides whether a status is in the success range.
pub fn is_success_status(status: u16) -> (answer: bool)
    ensures
        answer == is_success(status),
{
    200 <= status && status < 300
}

/// Copies a list of JSON values.
fn copy_items(items: &Vec<Value>) -> (copied: Vec<Value>)
    ensures
        copied@ == items@,
{
    let mut copied: Vec<Value> = Vec::new();
    let mut at: usize = 0;
    while at < items.len()
        invariant
            at <= items@.len(),
            copied@ == items@.take(at as int),
        decreases items@.len() - at,
    {
        copied.push(items[at].clone());
        assert(copied@ =~= items@.take(at + 1));
        at += 1;
    }
    assert(items@.take(at as int) =~= items@);
    copied
}

/// Reads the content items from the body of a successful reply.
pub fn decode_envelope(body: &str) -> (decoded: Option<Vec<Value>>)
    ensures
        decoded is Some == envelope_items(body@) is Some,
        decoded matches Some(items) ==> envelope_items(body@) == Some(items@),
{
    let document = match parse_json(body) {
        Some(document) => document,
        None => {
            return None;
        },
    };
    let embedded = match member(&document, EMBEDDED_MEMBER) {
        Some(embedded) => embedded,
        None => {
            return None;
        },
    };
    let content = match member(embedded, CONTENT_MEMBER) {
        Some(content) => content,
        None => {
            return None;
        },
    };
    match elements(content) {
        Some(items) => Some(copy_items(items)),
        None => None,
    }
}

/// Reads a reply: a timeout and a status outside the success range are
/// failures, so is a successful reply whose body is no envelope; any other
/// reply yields its content items.
pub fn read_reply(outcome: HttpOutcome) -> (content: Result<Vec<Value>, FetchError>)
    ensures
        match reply_items(outcome@) {
            Ok(items) => content matches Ok(read) && read@ == items,
            Err(failure) => content matches Err(error) && error@ == failure,
        },
{
    match outcome {
        HttpOutcome::TimedOut => Err(FetchError::Timeout),
        HttpOutcome::Response { status, body } => {
            if !is_success_status(status) {
                Err(FetchError::UpstreamError { status, body })
            } else {
                match decode_envelope(body.as_str()) {
                    Some(items) => Ok(items),
                    None => Err(FetchError::DecodeError),
                }
            }
        },
    }
}

} // verus!
