//! The boundary to `serde_json`. A parsed document is a value of that
//! crate; verified code sees it as the tree `JsonView`. The contracts in this
//! file are not proved: they restate what the crate's source does.

use vstd::prelude::*;

verus! {

/// A JSON value as a mathematical tree. A number stands without its value:
/// nothing here reads one.
pub ghost enum JsonView {
    Null,
    Bool(bool),
    Number,
    Text(Seq<char>),
    Array(Seq<JsonView>),
    Object(Map<Seq<char>, JsonView>),
}

impl JsonView {
    /// The elements of an array, in order; none for any other value.
    pub open spec fn elements(self) -> Option<Seq<JsonView>> {
        match self {
            JsonView::Array(elements) => Some(elements),
            _ => None,
        }
    }

    /// The member of an object under a key; none where the object has no
    /// such member, and for any value that is no object.
    pub open spec fn member(self, key: Seq<char>) -> Option<JsonView> {
        match self {
            JsonView::Object(members) => if members.dom().contains(key) {
                Some(members[key])
            } else {
                None
            },
            _ => None,
        }
    }

    /// The text of a string; none for any other value.
    pub open spec fn text(self) -> Option<Seq<char>> {
        match self {
            JsonView::Text(text) => Some(text),
            _ => None,
        }
    }
}

/// `serde_json::Value`, carried through as it is. Nothing is claimed of it.
#[verifier::external_type_specification]
#[verifier::external_body]
pub struct ExValue(serde_json::Value);

/// `serde_json::Error`, carried through as it is. Nothing is claimed of it.
#[verifier::external_type_specification]
#[verifier::external_body]
pub struct ExError(serde_json::Error);

/// The tree that a `serde_json::Value` holds.
pub uninterp spec fn json_view(value: serde_json::Value) -> JsonView;

/// The tree that `serde_json::from_str` reads from a text; none for a text
/// that it refuses.
pub uninterp spec fn json_document(text: Seq<char>) -> Option<JsonView>;

/// The trees that a list of values holds, one for one.
pub open spec fn json_views(values: Seq<serde_json::Value>) -> Seq<JsonView> {
    Seq::new(values.len(), |i: int| json_view(values[i]))
}

/// Calls `serde_json::from_str` for a `serde_json::Value`. What comes back
/// depends on the text alone, so it has a name, `json_document`. Nothing is
/// claimed about which texts are taken, nor about the error.
#[verifier::external_body]
pub(crate) fn parse_json(text: &str) -> (r: Result<serde_json::Value, serde_json::Error>)
    ensures
        match r {
            Ok(document) => json_document(text@) == Some(json_view(document)),
            Err(_) => json_document(text@) is None,
        },
{
    serde_json::from_str::<serde_json::Value>(text)
}

/// `serde_json::Value::as_array` hands out the vector inside an array value,
/// and `None` for every other kind of value.
pub assume_specification<'a>[ serde_json::Value::as_array ](value: &'a serde_json::Value) -> (r:
    Option<&'a Vec<serde_json::Value>>)
    ensures
        match r {
            Some(elements) => json_view(*value).elements() == Some(json_views(elements@)),
            None => json_view(*value).elements() is None,
        },
;

/// `serde_json::Value::as_str` hands out the text inside a string value, and
/// `None` for every other kind of value.
pub assume_specification<'a>[ serde_json::Value::as_str ](value: &'a serde_json::Value) -> (r:
    Option<&'a str>)
    ensures
        match r {
            Some(text) => json_view(*value).text() == Some(text@),
            None => json_view(*value).text() is None,
        },
;

/// Calls `serde_json::Value::get` with a string index, which hands out the
/// member of an object under that key, and `None` where the object has none
/// or the value is no object.
#[verifier::external_body]
pub(crate) fn member_of<'a>(value: &'a serde_json::Value, key: &str) -> (r: Option<
    &'a serde_json::Value,
>)
    ensures
        match r {
            Some(member) => json_view(*value).member(key@) == Some(json_view(*member)),
            None => json_view(*value).member(key@) is None,
        },
{
    value.get(key)
}

} // verus!
