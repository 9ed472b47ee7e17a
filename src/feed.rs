//! The Descriptor Collector: reads item locations out of parsed feed
//! documents of the shape `data.children[].data.url`.

use vstd::prelude::*;
use crate::descriptor::{accepted_only, filter_locations};

verus! {

/// A parsed JSON document, holding as plain values what feed navigation
/// reads. Numbers are kept only as a kind: their value is never read.
pub enum JsonValue {
    Null,
    Bool(bool),
    Number,
    Str(String),
    Array(Vec<JsonValue>),
    Object(Vec<(String, JsonValue)>),
}

/// The value under the first field named `key`, if any.
pub open spec fn first_with_key(fields: Seq<(String, JsonValue)>, key: Seq<char>) -> Option<
    JsonValue,
>
    decreases fields.len(),
{
    if fields.len() == 0 {
        None
    } else if fields[0].0@ == key {
        Some(fields[0].1)
    } else {
        first_with_key(fields.drop_first(), key)
    }
}

/// The member `key` of an object; `None` for a missing key or a non-object.
pub open spec fn member_spec(v: JsonValue, key: Seq<char>) -> Option<JsonValue> {
    match v {
        JsonValue::Object(fields) => first_with_key(fields@, key),
        _ => None,
    }
}

/// The list at `data.children`, when the document has that shape.
pub open spec fn feed_children(doc: JsonValue) -> Option<Seq<JsonValue>> {
    match member_spec(doc, "data"@) {
        Some(d) => match member_spec(d, "children"@) {
            Some(JsonValue::Array(items)) => Some(items@),
            _ => None,
        },
        None => None,
    }
}

/// The string at `data.url` of one child item, when it has one.
pub open spec fn post_location(post: JsonValue) -> Option<String> {
    match member_spec(post, "data"@) {
        Some(d) => match member_spec(d, "url"@) {
            Some(JsonValue::Str(s)) => Some(s),
            _ => None,
        },
        None => None,
    }
}

/// The locations of the child items that have one, in order.
pub open spec fn post_locations(posts: Seq<JsonValue>) -> Seq<String> {
    posts.filter_map(|p: JsonValue| post_location(p))
}

/// Every location a feed document names, before filtering.
pub open spec fn feed_locations(doc: JsonValue) -> Seq<String> {
    match feed_children(doc) {
        Some(posts) => post_locations(posts),
        None => Seq::empty(),
    }
}

/// The accepted descriptors of one feed document.
pub open spec fn feed_descriptors(doc: JsonValue) -> Seq<String> {
    accepted_only(feed_locations(doc))
}

/// The descriptors of one source: nothing from a source that failed.
pub open spec fn source_descriptors(response: Option<JsonValue>) -> Seq<String> {
    match response {
        Some(doc) => feed_descriptors(doc),
        None => Seq::empty(),
    }
}

/// The descriptors of all sources, concatenated in source order.
pub open spec fn collected(responses: Seq<Option<JsonValue>>) -> Seq<String>
    decreases responses.len(),
{
    if responses.len() == 0 {
        Seq::empty()
    } else {
        collected(responses.drop_last()) + source_descriptors(responses.last())
    }
}

/// Looks up the member `key` of an object.
pub fn member<'a>(v: &'a JsonValue, key: &String) -> (r: Option<&'a JsonValue>)
    ensures
        match r {
            Some(m) => member_spec(*v, key@) == Some(*m),
            None => member_spec(*v, key@) is None,
        },
{
    match v {
        JsonValue::Object(fields) => {
            let mut i: usize = 0;
            proof {
                assert(fields@.subrange(0, fields.len() as int) =~= fields@);
            }
            while i < fields.len()
                invariant
                    i <= fields.len(),
                    member_spec(*v, key@) == first_with_key(fields@, key@),
                    first_with_key(fields@, key@) == first_with_key(
                        fields@.subrange(i as int, fields.len() as int),
                        key@,
                    ),
                decreases fields.len() - i,
            {
                let ghost rest = fields@.subrange(i as int, fields.len() as int);
                if fields[i].0 == *key {
                    assert(rest[0] == fields@[i as int]);
                    return Some(&fields[i].1);
                }
                proof {
                    assert(rest.drop_first() =~= fields@.subrange(i + 1, fields.len() as int));
                }
                i = i + 1;
            }
            None
        },
        _ => None,
    }
}

/// The location of one child item, when it has a string at `data.url`.
pub fn post_location_of(post: &JsonValue) -> (r: Option<String>)
    ensures
        r == post_location(*post),
{
    let data_key = "data".to_owned();
    let url_key = "url".to_owned();
    proof {
        reveal_strlit("data");
        reveal_strlit("url");
    }
    match member(post, &data_key) {
        Some(d) => match member(d, &url_key) {
            Some(JsonValue::Str(s)) => Some(s.clone()),
            _ => None,
        },
        None => None,
    }
}

/// Every location that a feed document names, in order, before filtering.
/// A document without the `data.children` list names none.
pub fn extract_locations(doc: &JsonValue) -> (r: Vec<String>)
    ensures
        r@ == feed_locations(*doc),
{
    let data_key = "data".to_owned();
    let children_key = "children".to_owned();
    proof {
        reveal_strlit("data");
        reveal_strlit("children");
    }
    let mut r: Vec<String> = Vec::new();
    let posts = match member(doc, &data_key) {
        Some(d) => match member(d, &children_key) {
            Some(JsonValue::Array(items)) => items,
            _ => {
                return r;
            },
        },
        None => {
            return r;
        },
    };
    let mut i: usize = 0;
    while i < posts.len()
        invariant
            i <= posts.len(),
            feed_children(*doc) == Some(posts@),
            r@ == post_locations(posts@.take(i as int)),
        decreases posts.len() - i,
    {
        proof {
            assert(posts@.take(i as int + 1).drop_last() =~= posts@.take(i as int));
        }
        match post_location_of(&posts[i]) {
            Some(s) => {
                proof {
                    assert(r@.push(s) =~= post_locations(posts@.take(i as int)) + seq![s]);
                }
                r.push(s);
            },
            None => {},
        }
        i = i + 1;
    }
    proof {
        assert(posts@.take(i as int) =~= posts@);
    }
    r
}

/// The accepted descriptors of one feed document, in discovery order.
pub fn urls_from_feed(doc: &JsonValue) -> (r: Vec<String>)
    ensures
        r@ == feed_descriptors(*doc),
{
    let locations = extract_locations(doc);
    filter_locations(&locations)
}

/// Gathers the descriptors of all sources into one flat collection, in
/// source order and then discovery order; a source whose retrieval or parse
/// failed (`None`) contributes nothing. Duplicates are kept.
pub fn collect_descriptors(responses: &Vec<Option<JsonValue>>) -> (r: Vec<String>)
    ensures
        r@ == collected(responses@),
{
    let mut r: Vec<String> = Vec::new();
    let mut i: usize = 0;
    while i < responses.len()
        invariant
            i <= responses.len(),
            r@ == collected(responses@.take(i as int)),
        decreases responses.len() - i,
    {
        proof {
            assert(responses@.take(i as int + 1).drop_last() =~= responses@.take(i as int));
        }
        match &responses[i] {
            Some(doc) => {
                let mut part = urls_from_feed(doc);
                r.append(&mut part);
            },
            None => {},
        }
        i = i + 1;
    }
    proof {
        assert(responses@.take(i as int) =~= responses@);
    }
    r
}

/// A feed document without the `data.children` list yields no descriptors.
pub proof fn lemma_malformed_feed_yields_nothing(doc: JsonValue)
    requires
        feed_children(doc) is None,
    ensures
        feed_descriptors(doc) == Seq::<String>::empty(),
{
    reveal(Seq::filter);
}

} // verus!
