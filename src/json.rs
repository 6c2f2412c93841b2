//! The parts of serde_json that the settings document is built from.
//!
//! `serde_json::Value` is opaque here: what the library reads from a value is
//! given by the names below, one for each accessor of serde_json it calls.
use vstd::prelude::*;

verus! {

#[verifier::external_type_specification]
#[verifier::external_body]
pub struct ExJsonValue(serde_json::Value);

#[verifier::external_type_specification]
#[verifier::external_body]
#[verifier::reject_recursive_types(K)]
#[verifier::reject_recursive_types(V)]
pub struct ExJsonMap<K, V>(serde_json::Map<K, V>);

/// The entries of a JSON object, by key.
pub uninterp spec fn object_entries(m: serde_json::Map<String, serde_json::Value>) -> Map<Seq<char>, serde_json::Value>;

/// What `Value::as_bool` returns: the flag of a JSON boolean.
pub uninterp spec fn bool_of(v: serde_json::Value) -> Option<bool>;

/// What `Value::as_u64` returns: a JSON number that is a non-negative integer.
pub uninterp spec fn u64_of(v: serde_json::Value) -> Option<u64>;

/// What `Value::as_str` returns: the text of a JSON string.
pub uninterp spec fn str_of(v: serde_json::Value) -> Option<Seq<char>>;

/// What `Value::as_object` returns: the map of a JSON object.
pub uninterp spec fn object_of(v: serde_json::Value) -> Option<serde_json::Map<String, serde_json::Value>>;

/// The keys of a JSON object in the order in which they were first inserted
/// (serde_json keeps that order under its `preserve_order` feature).
pub uninterp spec fn object_keys(m: serde_json::Map<String, serde_json::Value>) -> Seq<Seq<char>>;

/// A JSON value that is not a container.
pub enum Scalar {
    Flag(bool),
    Count(u64),
    Text(Seq<char>),
}

/// What a value is, if it is a boolean, a non-negative integer or a string.
pub open spec fn scalar_of(v: serde_json::Value) -> Option<Scalar> {
    if bool_of(v) is Some {
        Some(Scalar::Flag(bool_of(v).unwrap()))
    } else if u64_of(v) is Some {
        Some(Scalar::Count(u64_of(v).unwrap()))
    } else if str_of(v) is Some {
        Some(Scalar::Text(str_of(v).unwrap()))
    } else {
        None
    }
}

/// The keys of a list of members, in order.
pub open spec fn member_keys(ms: Seq<(Seq<char>, Scalar)>) -> Seq<Seq<char>> {
    ms.map_values(|p: (Seq<char>, Scalar)| p.0)
}

/// The members of a JSON object whose values are all scalars, in key order;
/// `None` for any other value.
pub open spec fn flat_members(v: serde_json::Value) -> Option<Seq<(Seq<char>, Scalar)>> {
    match object_of(v) {
        None => None,
        Some(m) => {
            let keys = object_keys(m);
            let e = object_entries(m);
            if keys.no_duplicates() && keys.to_set() == e.dom() && (forall|i: int|
                0 <= i < keys.len() ==> (#[trigger] scalar_of(e[keys[i]])) is Some) {
                Some(keys.map_values(|k: Seq<char>| (k, scalar_of(e[k]).unwrap())))
            } else {
                None
            }
        },
    }
}

/// What `serde_json::to_string_pretty` writes for an object with these
/// members, in this order.
pub uninterp spec fn pretty_object_text(ms: Seq<(Seq<char>, Scalar)>) -> Seq<char>;

/// What `serde_json::from_str` reads from a text: `None` where it is not JSON.
pub uninterp spec fn parse_of(s: Seq<char>) -> Option<serde_json::Value>;

/// Relies on `Map::new`: a new map has no entries.
pub assume_specification[ serde_json::Map::<String, serde_json::Value>::new ]() -> (r: serde_json::Map<String, serde_json::Value>)
    ensures
        object_entries(r).dom() == Set::<Seq<char>>::empty(),
        object_keys(r).len() == 0,
;

/// Relies on `Map::insert`: the key now maps to the value, and the previous
/// value of the key, if any, is handed back. A new key goes last in the order
/// of keys; a key that was present keeps its place.
pub assume_specification[ serde_json::Map::<String, serde_json::Value>::insert ](
    m: &mut serde_json::Map<String, serde_json::Value>,
    k: String,
    v: serde_json::Value,
) -> (r: Option<serde_json::Value>)
    ensures
        object_entries(*final(m)) == object_entries(*old(m)).insert(k@, v),
        object_entries(*old(m)).contains_key(k@) ==> r == Some(object_entries(*old(m))[k@]),
        !object_entries(*old(m)).contains_key(k@) ==> r is None,
        !object_entries(*old(m)).contains_key(k@) ==> object_keys(*final(m)) == object_keys(
            *old(m),
        ).push(k@),
        object_entries(*old(m)).contains_key(k@) ==> object_keys(*final(m)) == object_keys(
            *old(m),
        ),
;

/// Relies on `Value::as_bool`.
pub assume_specification[ serde_json::Value::as_bool ](v: &serde_json::Value) -> (r: Option<bool>)
    ensures
        r == bool_of(*v),
;

/// Relies on `Value::as_u64`.
pub assume_specification[ serde_json::Value::as_u64 ](v: &serde_json::Value) -> (r: Option<u64>)
    ensures
        r == u64_of(*v),
;

/// Relies on `Value::as_str`.
pub assume_specification[ serde_json::Value::as_str ](v: &serde_json::Value) -> (r: Option<&str>)
    ensures
        match r {
            Some(s) => str_of(*v) == Some(s@),
            None => str_of(*v) is None,
        },
;

/// Relies on `Value::as_object`.
pub assume_specification[ serde_json::Value::as_object ](v: &serde_json::Value) -> (r: Option<
    &serde_json::Map<String, serde_json::Value>,
>)
    ensures
        match r {
            Some(m) => object_of(*v) == Some(*m),
            None => object_of(*v) is None,
        },
;

/// Relies on `Map::get`: the value stored under a key, if the key is present.
#[verifier::external_body]
pub(crate) fn object_get<'a>(m: &'a serde_json::Map<String, serde_json::Value>, key: &str) -> (r: Option<&'a serde_json::Value>)
    ensures
        match r {
            Some(v) => object_entries(*m).contains_key(key@) && object_entries(*m)[key@] == *v,
            None => !object_entries(*m).contains_key(key@),
        },
{
    m.get(key)
}

/// Relies on `Value::Bool`: `as_bool` gives the flag back.
#[verifier::external_body]
pub(crate) fn bool_value(b: bool) -> (r: serde_json::Value)
    ensures
        bool_of(r) == Some(b),
{
    serde_json::Value::Bool(b)
}

/// Relies on `Value::from` for `u32`, a `Value::Number` that `as_u64` gives
/// back and that is no boolean.
#[verifier::external_body]
pub(crate) fn u32_value(n: u32) -> (r: serde_json::Value)
    ensures
        u64_of(r) == Some(n as u64),
        bool_of(r) is None,
{
    serde_json::Value::from(n)
}

/// Relies on `Value::String`: `as_str` gives the text back; it is no boolean
/// and no number.
#[verifier::external_body]
pub(crate) fn string_value(s: String) -> (r: serde_json::Value)
    ensures
        str_of(r) == Some(s@),
        bool_of(r) is None,
        u64_of(r) is None,
{
    serde_json::Value::String(s)
}

/// Relies on `Value::Object`: `as_object` gives the map back.
#[verifier::external_body]
pub(crate) fn object_value(m: serde_json::Map<String, serde_json::Value>) -> (r: serde_json::Value)
    ensures
        object_of(r) == Some(m),
{
    serde_json::Value::Object(m)
}

/// Relies on `serde_json::to_string_pretty`: a `Value` always prints, since
/// its keys are strings and the text goes to memory; an object of scalars
/// prints as the indented text of its members in key order.
#[verifier::external_body]
pub(crate) fn to_pretty_text(v: &serde_json::Value) -> (r: Result<String, String>)
    ensures
        r is Ok,
        flat_members(*v) matches Some(ms) ==> (r matches Ok(t) ==> t@ == pretty_object_text(ms)),
{
    match serde_json::to_string_pretty(v) {
        Ok(t) => Ok(t),
        Err(e) => Err(e.to_string()),
    }
}

/// Where `t` is the indented text of an object of scalars with distinct
/// keys, `r` is that object, its members in the same order.
pub open spec fn reads_back_members(t: Seq<char>, r: Result<serde_json::Value, String>) -> bool {
    forall|ms: Seq<(Seq<char>, Scalar)>|
        #![trigger pretty_object_text(ms)]
        pretty_object_text(ms) == t && member_keys(ms).no_duplicates() ==> (r matches Ok(v)
            && flat_members(v) == Some(ms))
}

/// Relies on `serde_json::from_str`: the value that the text denotes, or
/// serde_json's message where the text is not JSON. The indented text of an
/// object of scalars with distinct keys reads back as that object, its
/// members in the same order.
#[verifier::external_body]
pub(crate) fn parse_text(s: &str) -> (r: Result<serde_json::Value, String>)
    ensures
        match r {
            Ok(v) => parse_of(s@) == Some(v),
            Err(_) => parse_of(s@) is None,
        },
        reads_back_members(s@, r),
{
    match serde_json::from_str::<serde_json::Value>(s) {
        Ok(v) => Ok(v),
        Err(e) => Err(e.to_string()),
    }
}

} // verus!
