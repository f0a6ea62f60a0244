//! The query options of a request, and the cache key derived from them.
//!
//! Options are a map from parameter names to texts. The order in which they
//! were set plays no part: the view is a `Map`, and the cache key is stated
//! over that map alone.

use vstd::prelude::*;

use crate::json::{new_object, object_entries, object_text, object_to_text, set_entry, text, text_value};
use crate::text_map::{distinct_names, entries_map, lemma_entry_appended, lemma_entry_present, TextMap};
use vstd::string::StringExecFns;
use serde_json::Value;

verus! {

/// The characters of each stored text.
pub open spec fn texts_of(stored: Map<Seq<char>, String>) -> Map<Seq<char>, Seq<char>> {
    stored.map_values(|text: String| text@)
}

/// The JSON object entries that write the options: each text as a JSON
/// string under its name.
pub open spec fn option_entries(options: Map<Seq<char>, Seq<char>>) -> Map<Seq<char>, Value> {
    options.map_values(|text: Seq<char>| text_value(text))
}

/// The cache key of a request: the content type, a colon, and the options
/// written as a compact JSON object. Requests for the same content type
/// with the same options have the same key.
pub open spec fn cache_key_text(content_type: Seq<char>, options: Map<Seq<char>, Seq<char>>) -> Seq<
    char,
> {
    content_type + ":"@ + object_text(option_entries(options))
}

/// The query options of a request: parameter names with their texts, each
/// name at most once.
#[derive(Debug)]
pub struct QueryOptions {
    stored: TextMap<String>,
}

impl View for QueryOptions {
    type V = Map<Seq<char>, Seq<char>>;

    closed spec fn view(&self) -> Map<Seq<char>, Seq<char>> {
        texts_of(self.stored@)
    }
}

/// The options that an optional argument stands for: none where it is absent.
pub open spec fn options_of(options: Option<QueryOptions>) -> Map<Seq<char>, Seq<char>> {
    match options {
        Some(given) => given@,
        None => Map::empty(),
    }
}

impl QueryOptions {
    /// No options.
    pub fn new() -> (made: Self)
        ensures
            made@ == Map::<Seq<char>, Seq<char>>::empty(),
    {
        let made = QueryOptions { stored: TextMap::new() };
        assert(made@ =~= Map::<Seq<char>, Seq<char>>::empty());
        made
    }

    /// Sets a parameter, in place of the text it had.
    pub fn insert(&mut self, name: String, text: String)
        ensures
            final(self)@ == old(self)@.insert(name@, text@),
    {
        self.stored.insert(name, text);
        assert(self@ =~= old(self)@.insert(name@, text@));
    }

    /// The text of a parameter, if it is set.
    pub fn get(&self, name: &str) -> (found: Option<&String>)
        ensures
            found is Some == self@.contains_key(name@),
            found matches Some(text) ==> text@ == self@[name@],
    {
        self.stored.get(name)
    }

    /// Whether no parameter is set.
    pub fn is_empty(&self) -> (answer: bool)
        ensures
            answer == (self@ == Map::<Seq<char>, Seq<char>>::empty()),
    {
        let listed = self.stored.entries();
        if listed.len() == 0 {
            assert(self@ =~= Map::<Seq<char>, Seq<char>>::empty());
            true
        } else {
            proof {
                lemma_entry_present(listed@, 0);
                assert(self@.contains_key(listed@[0].0@));
            }
            false
        }
    }

    /// The parameters as a list of names with their texts: no name occurs
    /// twice, and together they are the options.
    pub fn pairs(&self) -> (listed: &Vec<(String, String)>)
        ensures
            distinct_names(listed@),
            texts_of(entries_map(listed@)) == self@,
    {
        self.stored.entries()
    }
}

/// Adding an entry to a list adds its JSON string to the object entries.
proof fn lemma_option_entries_grow(listed: Seq<(String, String)>, upto: int)
    requires
        0 <= upto < listed.len(),
    ensures
        option_entries(texts_of(entries_map(listed.take(upto + 1)))) == option_entries(
            texts_of(entries_map(listed.take(upto))),
        ).insert(listed[upto].0@, text_value(listed[upto].1@)),
{
    let before = listed.take(upto);
    let entry = listed[upto];
    assert(listed.take(upto + 1) =~= before.push(entry));
    lemma_entry_appended(before, entry.0, entry.1);
    assert(option_entries(texts_of(entries_map(before).insert(entry.0@, entry.1)))
        =~= option_entries(texts_of(entries_map(before))).insert(entry.0@, text_value(entry.1@)));
}

/// Derives the cache key of a request from its content type and options.
pub fn cache_key(content_type: &str, options: &QueryOptions) -> (key: String)
    ensures
        key@ == cache_key_text(content_type@, options@),
{
    let listed = options.pairs();
    let mut object = new_object();
    let mut at: usize = 0;
    assert(option_entries(texts_of(entries_map(listed@.take(0)))) =~= Map::<
        Seq<char>,
        Value,
    >::empty());
    while at < listed.len()
        invariant
            at <= listed@.len(),
            object_entries(object) == option_entries(texts_of(entries_map(listed@.take(at as int)))),
        decreases listed@.len() - at,
    {
        let name = listed[at].0.clone();
        let written = text(listed[at].1.clone());
        proof {
            lemma_option_entries_grow(listed@, at as int);
        }
        set_entry(&mut object, name, written);
        at += 1;
    }
    assert(listed@.take(at as int) =~= listed@);
    let mut key = String::from_str(content_type);
    key.append(":");
    key.append(object_to_text(&object).as_str());
    key
}

} // verus!
