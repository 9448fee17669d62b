//! The YAML documents of entity files, as `serde_yml` reads and writes
//! them: each call the edits of an entity file make into the YAML library,
//! with what its source shows of the result.

use vstd::prelude::*;
use serde_yml::Value;

verus! {

/// `serde_yml::Value`, a YAML document or a part of one. The edits carry
/// such values from one call of the YAML library to the next.
#[verifier::external_type_specification]
#[verifier::external_body]
pub struct ExYamlValue(serde_yml::Value);

/// The document `serde_yml::from_str` reads from a text; the error is the
/// parser's message.
pub uninterp spec fn parsed_yaml(content: Seq<char>) -> Result<Value, Seq<char>>;

/// The text `serde_yml::to_string` writes for a value; the error is the
/// writer's message.
pub uninterp spec fn yaml_emitted(v: Value) -> Result<Seq<char>, Seq<char>>;

/// Whether the value is null (`Value::is_null`).
pub uninterp spec fn yaml_is_null(v: Value) -> bool;

/// The value's text when it is a string (`Value::as_str`).
pub uninterp spec fn yaml_text(v: Value) -> Option<Seq<char>>;

/// The value's items, in order, when it is a sequence (`Value::as_sequence`).
pub uninterp spec fn yaml_items(v: Value) -> Option<Seq<Value>>;

/// The value's keys, in order, when it is a mapping (`Value::as_mapping`).
pub uninterp spec fn yaml_keys(v: Value) -> Option<Seq<Seq<char>>>;

/// The value under a key of a mapping (`Value::get` with a key).
pub uninterp spec fn yaml_entry(v: Value, key: Seq<char>) -> Option<Value>;

/// The value once `Value::insert` has set `key` to `x` in it.
pub uninterp spec fn yaml_inserted(v: Value, key: Seq<char>, x: Value) -> Value;

/// The value `Value::from` makes of an optional text: the string, or null.
pub uninterp spec fn yaml_from_option(o: Option<Seq<char>>) -> Value;

/// The sequence `Value::from` makes of a list of values.
pub uninterp spec fn yaml_sequence(items: Seq<Value>) -> Value;

/// The mapping value made of a `serde_yml::Mapping` that holds one key.
pub uninterp spec fn yaml_mapping_of(key: Seq<char>, x: Value) -> Value;

/// Calls `serde_yml::from_str` on the text: the document read, named
/// [`parsed_yaml`], or the parser's message.
#[verifier::external_body]
pub(crate) fn parse_yaml(content: &str) -> (r: Result<Value, String>)
    ensures
        match r {
            Ok(v) => parsed_yaml(content@) == Ok::<Value, Seq<char>>(v),
            Err(m) => parsed_yaml(content@) == Err::<Value, Seq<char>>(m@),
        },
{
    serde_yml::from_str(content).map_err(|e| e.to_string())
}

/// Calls `serde_yml::to_string` on the value: the text written, named
/// [`yaml_emitted`], or the writer's message.
#[verifier::external_body]
pub(crate) fn emit_yaml(v: &Value) -> (r: Result<String, String>)
    ensures
        match r {
            Ok(s) => yaml_emitted(*v) == Ok::<Seq<char>, Seq<char>>(s@),
            Err(m) => yaml_emitted(*v) == Err::<Seq<char>, Seq<char>>(m@),
        },
{
    serde_yml::to_string(v).map_err(|e| e.to_string())
}

/// Calls `Value::is_null`: the answer is named [`yaml_is_null`].
#[verifier::external_body]
pub(crate) fn is_null_value(v: &Value) -> (r: bool)
    ensures
        r == yaml_is_null(*v),
{
    v.is_null()
}

/// Calls `Value::as_str`: the text, named [`yaml_text`].
#[verifier::external_body]
pub(crate) fn text_of(v: &Value) -> (r: Option<String>)
    ensures
        match r {
            Some(s) => yaml_text(*v) == Some(s@),
            None => yaml_text(*v) is None,
        },
{
    v.as_str().map(String::from)
}

/// Calls `Value::as_sequence` and takes the number of items: `None`
/// exactly when [`yaml_items`] is `None`.
#[verifier::external_body]
pub(crate) fn sequence_len(v: &Value) -> (r: Option<usize>)
    ensures
        match r {
            Some(n) => yaml_items(*v) matches Some(xs) && xs.len() == n,
            None => yaml_items(*v) is None,
        },
{
    v.as_sequence().map(|s| s.len())
}

/// Indexes the sequence (`Value`'s `Index<usize>`, which panics outside the
/// sequence) and clones the item: the item of [`yaml_items`] at `i`.
#[verifier::external_body]
pub(crate) fn item_at(v: &Value, i: usize) -> (r: Value)
    requires
        yaml_items(*v) matches Some(xs) && i < xs.len(),
    ensures
        r == yaml_items(*v)->Some_0[i as int],
{
    v[i].clone()
}

/// Calls `Value::as_mapping` and collects the keys in order: the keys
/// named [`yaml_keys`]. A mapping has a value under a key exactly when the
/// key is one of its keys.
#[verifier::external_body]
pub(crate) fn keys_of(v: &Value) -> (r: Option<Vec<String>>)
    ensures
        match r {
            Some(ks) => yaml_keys(*v) == Some(ks@.map_values(|k: String| k@))
                && forall|k: Seq<char>| (#[trigger] yaml_entry(*v, k)) is Some <==> ks@.map_values(|x: String| x@).contains(k),
            None => yaml_keys(*v) is None,
        },
{
    v.as_mapping().map(|m| m.keys().cloned().collect())
}

/// Calls `Value::get` with a key and clones what it finds: the value named
/// [`yaml_entry`].
#[verifier::external_body]
pub(crate) fn entry_of(v: &Value, key: &str) -> (r: Option<Value>)
    ensures
        r == yaml_entry(*v, key@),
{
    v.get(key).cloned()
}

/// Calls `Value::insert` to set `key` to `x`: the value becomes the one
/// named [`yaml_inserted`]. In a mapping, the key then holds `x` and
/// stays a mapping.
#[verifier::external_body]
pub(crate) fn insert_entry(v: &mut Value, key: &str, x: Value)
    ensures
        *final(v) == yaml_inserted(*old(v), key@, x),
        yaml_keys(*old(v)) is Some ==> yaml_keys(*final(v)) is Some && yaml_entry(*final(v), key@) == Some(x),
{
    v.insert(key, x);
}

/// Calls `Value::from` on an optional text: the value named
/// [`yaml_from_option`], the string (not null) or null.
#[verifier::external_body]
pub(crate) fn value_of_text(o: Option<String>) -> (r: Value)
    ensures
        r == yaml_from_option(match o {
            Some(s) => Some(s@),
            None => None,
        }),
        yaml_is_null(r) == (o is None),
        yaml_text(r) == match o {
            Some(s) => Some(s@),
            None => None::<Seq<char>>,
        },
{
    Value::from(o)
}

/// Calls `Value::from` on a list of values: the sequence named
/// [`yaml_sequence`], which is neither null nor a string and holds the
/// values in order.
#[verifier::external_body]
pub(crate) fn sequence_of(items: Vec<Value>) -> (r: Value)
    ensures
        r == yaml_sequence(items@),
        !yaml_is_null(r),
        yaml_text(r) is None,
        yaml_items(r) == Some(items@),
{
    Value::from(items)
}

/// Makes a `serde_yml::Mapping` of one key with `Mapping::from` and wraps
/// it as a value: the value named [`yaml_mapping_of`], a mapping whose one
/// key holds `x`.
#[verifier::external_body]
pub(crate) fn mapping_of(key: &str, x: Value) -> (r: Value)
    ensures
        r == yaml_mapping_of(key@, x),
        yaml_keys(r) == Some(seq![key@]),
        yaml_entry(r, key@) == Some(x),
{
    Value::Mapping(serde_yml::Mapping::from([(key.to_owned(), x)]))
}

} // verus!
