//! Classifies a response body as a wrapped collection, a bare array or a
//! single record, and yields the records it holds.
use crate::headers::{text_of, HeaderField};
use crate::paging::{strategy_fails, strategy_next, Pagination};
use crate::json::{
    array_items, field, fields, is_empty_object, is_null, is_object, parse_json,
    parsed, shape, string_text, JsonShape,
};
use vstd::prelude::*;

verus! {

/// How many characters of an unreadable body a `ParseError` keeps.
pub const SNIPPET_CHARS: usize = 100;

/// The three shapes a response body takes.
pub enum ResponseShape {
    /// `{ "value": [...], <paging fields> }`
    Collection { value: Vec<serde_json::Value>, next_link: Option<String> },
    /// `[...]`
    Array(Vec<serde_json::Value>),
    /// Any other value: one record.
    Single(serde_json::Value),
}

/// A body that is not JSON, with the start of its text.
pub struct ParseError {
    pub snippet: String,
}

/// Whether the field `key` of an object is absent, null or a string, which is
/// what a collection's next-link field may be.
pub open spec fn link_field_fits(v: serde_json::Value, key: Seq<char>) -> bool {
    !fields(v).contains_key(key) || shape(fields(v)[key]) is Null || shape(fields(v)[key]) is Str
}

/// The string in field `key` of an object, if that field is a string.
pub open spec fn string_field(v: serde_json::Value, key: Seq<char>) -> Option<Seq<char>> {
    if fields(v).contains_key(key) {
        match shape(fields(v)[key]) {
            JsonShape::Str(s) => Some(s),
            _ => None,
        }
    } else {
        None
    }
}

/// An object whose `value` field is an array and whose next-link fields are
/// absent, null or strings.
pub open spec fn is_collection(v: serde_json::Value) -> bool {
    &&& is_object(v)
    &&& fields(v).contains_key("value"@)
    &&& shape(fields(v)["value"@]) is Array
    &&& link_field_fits(v, "@odata.nextLink"@)
    &&& link_field_fits(v, "nextLink"@)
}

/// The records of a collection's `value` array.
pub open spec fn collection_items(v: serde_json::Value) -> Seq<serde_json::Value> {
    match shape(fields(v)["value"@]) {
        JsonShape::Array(s) => s,
        _ => Seq::empty(),
    }
}

/// The next link that a collection carries in its body.
pub open spec fn embedded_link(v: serde_json::Value) -> Option<Seq<char>> {
    match string_field(v, "@odata.nextLink"@) {
        Some(l) => Some(l),
        None => string_field(v, "nextLink"@),
    }
}

/// The records a body holds: a collection's items, an array's elements, no
/// record for `{}`, and otherwise the body itself.
pub open spec fn resolved_items(v: serde_json::Value) -> Seq<serde_json::Value> {
    if is_collection(v) {
        collection_items(v)
    } else {
        match shape(v) {
            JsonShape::Array(s) => s,
            _ => if shape(v) == JsonShape::Object(Map::<Seq<char>, serde_json::Value>::empty()) {
                Seq::empty()
            } else {
                seq![v]
            },
        }
    }
}

/// The first `SNIPPET_CHARS` characters of a text.
pub open spec fn snippet_of(text: Seq<char>) -> Seq<char> {
    if text.len() <= SNIPPET_CHARS {
        text
    } else {
        text.subrange(0, SNIPPET_CHARS as int)
    }
}

/// The text that is decoded for a body: an empty body reads as `{}`.
pub open spec fn body_text(text: Seq<char>) -> Seq<char> {
    if text.len() == 0 {
        "{}"@
    } else {
        text
    }
}

impl ResponseShape {
    /// The records of a resolved shape.
    pub open spec fn spec_items(&self) -> Seq<serde_json::Value> {
        match self {
            ResponseShape::Collection { value, .. } => value@,
            ResponseShape::Array(items) => items@,
            ResponseShape::Single(v) => if shape(*v) == JsonShape::Object(
                Map::<Seq<char>, serde_json::Value>::empty(),
            ) {
                Seq::empty()
            } else {
                seq![*v]
            },
        }
    }

    /// The next link carried in the body, if any.
    pub open spec fn spec_next_link(&self) -> Option<Seq<char>> {
        match self {
            ResponseShape::Collection { next_link, .. } => text_of(*next_link),
            _ => None,
        }
    }

    /// Tries a collection first, then an array, and takes anything else as one
    /// record.
    pub fn resolve(body: serde_json::Value) -> (r: ResponseShape)
        ensures
            is_collection(body) ==> r is Collection && r.spec_items() == collection_items(body)
                && r.spec_next_link() == embedded_link(body),
            !is_collection(body) ==> match shape(body) {
                JsonShape::Array(s) => r is Array && r.spec_items() == s,
                _ => r == ResponseShape::Single(body),
            },
            r.spec_items() == resolved_items(body),
            r.spec_next_link() == if is_collection(body) {
                embedded_link(body)
            } else {
                None
            },
    {
        if let Some(value) = field(&body, "value") {
            if let Some(items) = array_items(&value) {
                let odata = field(&body, "@odata.nextLink");
                let plain = field(&body, "nextLink");
                let odata_fits = match &odata {
                    Some(l) => is_null(l) || string_text(l).is_some(),
                    None => true,
                };
                let plain_fits = match &plain {
                    Some(l) => is_null(l) || string_text(l).is_some(),
                    None => true,
                };
                if odata_fits && plain_fits {
                    let first = match &odata {
                        Some(l) => string_text(l),
                        None => None,
                    };
                    let next_link = match first {
                        Some(l) => Some(l),
                        None => match &plain {
                            Some(l) => string_text(l),
                            None => None,
                        },
                    };
                    return ResponseShape::Collection { value: items, next_link };
                }
            }
        }
        match array_items(&body) {
            Some(items) => ResponseShape::Array(items),
            None => ResponseShape::Single(body),
        }
    }

    /// The records of this shape, in their order; `{}` holds none.
    pub fn items(self) -> (r: Vec<serde_json::Value>)
        ensures
            r@ == self.spec_items(),
    {
        match self {
            ResponseShape::Collection { value, .. } => value,
            ResponseShape::Array(items) => items,
            ResponseShape::Single(v) => {
                if is_empty_object(&v) {
                    Vec::new()
                } else {
                    let mut r = Vec::new();
                    r.push(v);
                    proof {
                        assert(r@ =~= seq![v]);
                    }
                    r
                }
            },
        }
    }

    /// The next link that the body carries, if any.
    pub fn next_link(&self) -> (r: Option<String>)
        ensures
            text_of(r) == self.spec_next_link(),
    {
        match self {
            ResponseShape::Collection { next_link, .. } => match next_link {
                Some(l) => Some(l.clone()),
                None => None,
            },
            _ => None,
        }
    }
}

/// The records that a decoded body holds.
pub fn resolve(body: serde_json::Value) -> (r: Vec<serde_json::Value>)
    ensures
        r@ == resolved_items(body),
{
    ResponseShape::resolve(body).items()
}

/// The start of a text, for diagnostics.
pub fn snippet(text: &str) -> (r: String)
    ensures
        r@ == snippet_of(text@),
{
    let n = text.unicode_len();
    if n <= SNIPPET_CHARS {
        String::from_str(text)
    } else {
        String::from_str(text.substring_char(0, SNIPPET_CHARS))
    }
}

/// Decodes a response body; an empty body is read as `{}`. A body that is not
/// JSON gives a `ParseError` with the start of its text.
pub fn parse_body(text: &str) -> (r: Result<serde_json::Value, ParseError>)
    ensures
        match parsed(body_text(text@)) {
            Some(v) => r == Ok::<serde_json::Value, ParseError>(v),
            None => r is Err && r->Err_0.snippet@ == snippet_of(text@),
        },
{
    let decoded = if text.unicode_len() == 0 {
        parse_json("{}")
    } else {
        parse_json(text)
    };
    match decoded {
        Some(v) => Ok(v),
        None => Err(ParseError { snippet: snippet(text) }),
    }
}

} // verus!

verus! {

/// A body that is the empty object holds no record.
pub proof fn lemma_empty_object_has_no_items(body: serde_json::Value)
    requires
        shape(body) == JsonShape::Object(Map::<Seq<char>, serde_json::Value>::empty()),
    ensures
        resolved_items(body).len() == 0,
{
    assert(!fields(body).contains_key("value"@));
}

/// A body that is an array yields its elements, in their order.
pub proof fn lemma_array_items_in_order(body: serde_json::Value, elements: Seq<serde_json::Value>)
    requires
        shape(body) == JsonShape::Array(elements),
    ensures
        resolved_items(body) == elements,
{
}

/// A collection `{ "value": [a, b], "nextLink": null }` yields `a` and `b`,
/// and paging ends with it whatever the strategy reads from the body.
pub proof fn lemma_collection_with_null_link(
    body: serde_json::Value,
    value: serde_json::Value,
    next_link: serde_json::Value,
    a: serde_json::Value,
    b: serde_json::Value,
    headers: Seq<HeaderField>,
)
    requires
        shape(body) == JsonShape::Object(
            Map::<Seq<char>, serde_json::Value>::empty().insert("value"@, value).insert(
                "nextLink"@,
                next_link,
            ),
        ),
        shape(value) == JsonShape::Array(seq![a, b]),
        shape(next_link) == JsonShape::Null,
    ensures
        is_collection(body),
        resolved_items(body) == seq![a, b],
        embedded_link(body) is None,
        strategy_next(Pagination::EmbeddedLink, headers) is None,
        !strategy_fails(Pagination::EmbeddedLink, headers),
{
    reveal_strlit("value");
    reveal_strlit("nextLink");
    reveal_strlit("@odata.nextLink");
    assert("value"@.len() != "nextLink"@.len());
    assert("@odata.nextLink"@.len() != "nextLink"@.len());
    assert("@odata.nextLink"@.len() != "value"@.len());
    assert(fields(body)["value"@] == value);
    assert(fields(body)["nextLink"@] == next_link);
    assert(!fields(body).contains_key("@odata.nextLink"@));
}

} // verus!
