//! JSON documents, as the `serde_json` crate holds, reads and writes them.
//!
//! A document is kept as a `serde_json::Value`. What it holds is known to
//! the rest of the library as a `JsonTree`; the functions at the end of this
//! file make the calls into `serde_json`, and what their contracts say of
//! those calls is believed, not proved.
use vstd::prelude::*;

verus! {

/// What a JSON document holds. A number kept as a floating-point number,
/// which is every number written with a fraction or an exponent or beyond
/// the least `i64` and the largest `u64`, is a `Real`, whatever its value.
pub enum JsonTree {
    Null,
    Bool(bool),
    Int(int),
    Real,
    Text(Seq<char>),
    List(Seq<JsonTree>),
    Object(Map<Seq<char>, JsonTree>),
}

/// A JSON document.
#[verifier::external_type_specification]
#[verifier::external_body]
pub struct ExValue(serde_json::Value);

/// Why a text is no JSON document, or a document could not be written.
#[verifier::external_type_specification]
#[verifier::external_body]
pub struct ExJsonError(serde_json::Error);

/// What the document `value` holds.
pub uninterp spec fn json_view(value: serde_json::Value) -> JsonTree;

/// What `serde_json::from_str` reads from `text`; `None` where it refuses.
pub uninterp spec fn json_parsed(text: Seq<char>) -> Option<JsonTree>;

/// The text that `serde_json::to_string` writes for a document that holds
/// `tree`, a tree without `Real` numbers nested at most a hundred deep.
pub uninterp spec fn json_rendered(tree: JsonTree) -> Seq<char>;

/// The bytes that `serde_json::to_vec` writes for a document that holds
/// `tree`, a tree without `Real` numbers nested at most a hundred deep.
pub uninterp spec fn json_rendered_bytes(tree: JsonTree) -> Seq<u8>;

/// What `serde_json::from_slice` reads from `bytes`; `None` where it
/// refuses.
pub uninterp spec fn json_parsed_bytes(bytes: Seq<u8>) -> Option<JsonTree>;

/// The tree holds no `Real` and nests lists and objects at most `depth`
/// deep.
pub open spec fn plain_tree(tree: JsonTree, depth: nat) -> bool
    decreases depth,
{
    match tree {
        JsonTree::Null => true,
        JsonTree::Bool(_) => true,
        JsonTree::Int(_) => true,
        JsonTree::Real => false,
        JsonTree::Text(_) => true,
        JsonTree::List(items) => depth > 0 && forall|i: int|
            0 <= i < items.len() ==> plain_tree(#[trigger] items[i], (depth - 1) as nat),
        JsonTree::Object(members) => depth > 0 && forall|k: Seq<char>|
            members.contains_key(k) ==> plain_tree(#[trigger] members[k], (depth - 1) as nat),
    }
}

/// How deep a document may nest and still be read back after it was
/// written.
pub const MAX_JSON_DEPTH: usize = 100;

/// The member `key` of an object; `None` of another tree or where the object
/// has no such member.
pub open spec fn member(tree: JsonTree, key: Seq<char>) -> Option<JsonTree> {
    match tree {
        JsonTree::Object(members) => if members.contains_key(key) {
            Some(members[key])
        } else {
            None
        },
        _ => None,
    }
}

/// The text of a tree that is a text.
pub open spec fn text_of(tree: JsonTree) -> Option<Seq<char>> {
    match tree {
        JsonTree::Text(s) => Some(s),
        _ => None,
    }
}

/// The number of a tree that is a whole number a `u64` can hold.
pub open spec fn u64_of(tree: JsonTree) -> Option<u64> {
    match tree {
        JsonTree::Int(i) => if 0 <= i <= u64::MAX {
            Some(i as u64)
        } else {
            None
        },
        _ => None,
    }
}

/// The number of a tree that is a whole number an `i64` can hold.
pub open spec fn i64_of(tree: JsonTree) -> Option<i64> {
    match tree {
        JsonTree::Int(i) => if i64::MIN <= i <= i64::MAX {
            Some(i as i64)
        } else {
            None
        },
        _ => None,
    }
}

/// The truth value of a tree that is one.
pub open spec fn bool_of(tree: JsonTree) -> Option<bool> {
    match tree {
        JsonTree::Bool(b) => Some(b),
        _ => None,
    }
}

/// The items of a tree that is a list.
pub open spec fn items_of(tree: JsonTree) -> Option<Seq<JsonTree>> {
    match tree {
        JsonTree::List(items) => Some(items),
        _ => None,
    }
}

/// What each of the documents `values` holds.
pub open spec fn views_of(values: Seq<serde_json::Value>) -> Seq<JsonTree> {
    Seq::new(values.len(), |i: int| json_view(values[i]))
}

/// An object with `key` bound to `value`; another tree is left as it is.
pub open spec fn with_member(tree: JsonTree, key: Seq<char>, value: JsonTree) -> JsonTree {
    match tree {
        JsonTree::Object(members) => JsonTree::Object(members.insert(key, value)),
        other => other,
    }
}

/// The object without members.
pub open spec fn empty_object() -> JsonTree {
    JsonTree::Object(Map::empty())
}

/// `serde_json::from_str` reads a document from a text, or says why the text
/// is none.
#[verifier::external_body]
pub(crate) fn json_parse(text: &str) -> (r: std::result::Result<
    serde_json::Value,
    serde_json::Error,
>)
    ensures
        match r {
            Ok(value) => json_parsed(text@) == Some(json_view(value)),
            Err(_) => json_parsed(text@) is None,
        },
{
    serde_json::from_str::<serde_json::Value>(text)
}

/// `serde_json::from_slice` reads a document from bytes, or says why they
/// hold none.
#[verifier::external_body]
pub(crate) fn json_parse_bytes(bytes: &[u8]) -> (r: std::result::Result<
    serde_json::Value,
    serde_json::Error,
>)
    ensures
        match r {
            Ok(value) => json_parsed_bytes(bytes@) == Some(json_view(value)),
            Err(_) => json_parsed_bytes(bytes@) is None,
        },
{
    serde_json::from_slice::<serde_json::Value>(bytes)
}

/// `serde_json::to_string` writes a document as text. It always does: the
/// writing of a document has no failing step of its own, its names are
/// texts, and it writes into memory. For a document without `Real` numbers,
/// nested at most a hundred deep, the text depends on what the document
/// holds alone, its members written in the order of their names, and reads
/// back as the same document.
#[verifier::external_body]
pub(crate) fn json_render(value: &serde_json::Value) -> (r: std::result::Result<
    String,
    serde_json::Error,
>)
    ensures
        r is Ok,
        plain_tree(json_view(*value), MAX_JSON_DEPTH as nat) ==> match r {
            Ok(text) => text@ == json_rendered(json_view(*value)) && json_parsed(text@) == Some(
                json_view(*value),
            ),
            Err(_) => false,
        },
{
    serde_json::to_string(value)
}

/// `serde_json::to_vec` writes a document as bytes, and always does, as
/// `serde_json::to_string` does. The bytes of a document without `Real`
/// numbers, nested at most a hundred deep, depend on what the document holds
/// alone and read back as the same document. The bytes of an object begin
/// with an opening brace.
#[verifier::external_body]
pub(crate) fn json_render_bytes(value: &serde_json::Value) -> (r: std::result::Result<
    Vec<u8>,
    serde_json::Error,
>)
    ensures
        r is Ok,
        plain_tree(json_view(*value), MAX_JSON_DEPTH as nat) ==> match r {
            Ok(bytes) => bytes@ == json_rendered_bytes(json_view(*value)) && json_parsed_bytes(
                bytes@,
            ) == Some(json_view(*value)),
            Err(_) => false,
        },
        json_view(*value) is Object ==> match r {
            Ok(bytes) => bytes@.len() >= 2 && bytes@[0] == 0x7b,
            Err(_) => false,
        },
{
    serde_json::to_vec(value)
}

/// The words in which `serde_json::Error` describes itself.
#[verifier::external_body]
pub(crate) fn json_error_text(error: &serde_json::Error) -> String {
    error.to_string()
}

/// `serde_json::Value::get` with a text key gives the member of that name of
/// an object; here a copy of it.
#[verifier::external_body]
pub(crate) fn json_member(value: &serde_json::Value, key: &str) -> (r: Option<serde_json::Value>)
    ensures
        match r {
            Some(found) => member(json_view(*value), key@) == Some(json_view(found)),
            None => member(json_view(*value), key@) is None,
        },
{
    value.get(key).cloned()
}

/// `serde_json::Value::as_str` gives the text of a document that is a text.
#[verifier::external_body]
pub(crate) fn json_text_of(value: &serde_json::Value) -> (r: Option<String>)
    ensures
        match r {
            Some(text) => text_of(json_view(*value)) == Some(text@),
            None => text_of(json_view(*value)) is None,
        },
{
    value.as_str().map(|text| text.to_string())
}

/// `serde_json::Value::as_u64` gives the number of a document that is a
/// whole number a `u64` can hold.
#[verifier::external_body]
pub(crate) fn json_u64_of(value: &serde_json::Value) -> (r: Option<u64>)
    ensures
        r == u64_of(json_view(*value)),
{
    value.as_u64()
}

/// `serde_json::Value::as_i64` gives the number of a document that is a
/// whole number an `i64` can hold.
#[verifier::external_body]
pub(crate) fn json_i64_of(value: &serde_json::Value) -> (r: Option<i64>)
    ensures
        r == i64_of(json_view(*value)),
{
    value.as_i64()
}

/// `serde_json::Value::as_bool` gives the truth value of a document that is
/// one.
#[verifier::external_body]
pub(crate) fn json_bool_of(value: &serde_json::Value) -> (r: Option<bool>)
    ensures
        r == bool_of(json_view(*value)),
{
    value.as_bool()
}

/// `serde_json::Value::as_array` gives the items of a document that is a
/// list; here copies of them.
#[verifier::external_body]
pub(crate) fn json_items_of(value: &serde_json::Value) -> (r: Option<Vec<serde_json::Value>>)
    ensures
        match r {
            Some(items) => items_of(json_view(*value)) == Some(views_of(items@)),
            None => items_of(json_view(*value)) is None,
        },
{
    value.as_array().cloned()
}

/// `serde_json::Value::is_null` tells whether a document is the null
/// document.
#[verifier::external_body]
pub(crate) fn json_is_null(value: &serde_json::Value) -> (r: bool)
    ensures
        r == (json_view(*value) == JsonTree::Null),
{
    value.is_null()
}

/// The document `serde_json::Value::Null`.
#[verifier::external_body]
pub(crate) fn json_null() -> (value: serde_json::Value)
    ensures
        json_view(value) == JsonTree::Null,
{
    serde_json::Value::Null
}

/// The document `serde_json::Value::String` of a text.
#[verifier::external_body]
pub(crate) fn json_text(text: &str) -> (value: serde_json::Value)
    ensures
        json_view(value) == JsonTree::Text(text@),
{
    serde_json::Value::String(text.to_string())
}

/// The document that `serde_json::Value::from` makes of a `u64`.
#[verifier::external_body]
pub(crate) fn json_u64(number: u64) -> (value: serde_json::Value)
    ensures
        json_view(value) == JsonTree::Int(number as int),
{
    serde_json::Value::from(number)
}

/// The document that `serde_json::Value::from` makes of an `i64`.
#[verifier::external_body]
pub(crate) fn json_i64(number: i64) -> (value: serde_json::Value)
    ensures
        json_view(value) == JsonTree::Int(number as int),
{
    serde_json::Value::from(number)
}

/// The document `serde_json::Value::Bool` of a truth value.
#[verifier::external_body]
pub(crate) fn json_bool(truth: bool) -> (value: serde_json::Value)
    ensures
        json_view(value) == JsonTree::Bool(truth),
{
    serde_json::Value::Bool(truth)
}

/// The document `serde_json::Value::Array` of a list of documents.
#[verifier::external_body]
pub(crate) fn json_list(items: Vec<serde_json::Value>) -> (value: serde_json::Value)
    ensures
        json_view(value) == JsonTree::List(views_of(items@)),
{
    serde_json::Value::Array(items)
}

/// The object without members, made with `serde_json::Map::new`.
#[verifier::external_body]
pub(crate) fn json_object() -> (value: serde_json::Value)
    ensures
        json_view(value) == empty_object(),
{
    serde_json::Value::Object(serde_json::Map::new())
}

/// `serde_json::Map::insert` binds a key of an object to a document, in
/// place of what the key was bound to before. Another document than an
/// object is handed back as it came.
#[verifier::external_body]
pub(crate) fn json_with(object: serde_json::Value, key: &str, value: serde_json::Value) -> (r:
    serde_json::Value)
    ensures
        json_view(r) == with_member(json_view(object), key@, json_view(value)),
{
    match object {
        serde_json::Value::Object(mut members) => {
            members.insert(key.to_string(), value);
            serde_json::Value::Object(members)
        },
        other => other,
    }
}

/// `serde_json::Value::clone` copies a document.
#[verifier::external_body]
pub(crate) fn json_copy(value: &serde_json::Value) -> (r: serde_json::Value)
    ensures
        json_view(r) == json_view(*value),
{
    value.clone()
}


/// An object that is plain stays plain when a plain document is bound to one
/// of its names.
pub proof fn lemma_with_member_plain(tree: JsonTree, key: Seq<char>, value: JsonTree, depth: nat)
    requires
        depth > 0,
        plain_tree(tree, depth),
        plain_tree(value, (depth - 1) as nat),
    ensures
        plain_tree(with_member(tree, key, value), depth),
{
    match tree {
        JsonTree::Object(members) => {
            let bound = members.insert(key, value);
            assert forall|k: Seq<char>| bound.contains_key(k) implies plain_tree(
                #[trigger] bound[k],
                (depth - 1) as nat,
            ) by {
                if k != key {
                    assert(members.contains_key(k));
                    assert(bound[k] == members[k]);
                }
            }
        },
        _ => {},
    }
}

/// The object without members is plain at every depth but none.
pub proof fn lemma_empty_object_plain(depth: nat)
    requires
        depth > 0,
    ensures
        plain_tree(empty_object(), depth),
{
}

} // verus!
