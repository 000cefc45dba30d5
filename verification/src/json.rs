//! Saved states as JSON documents: building a document from numbers, truth
//! values and named members, and reading them back.
//!
//! The documents are those of `serde_json`. What is stated of them here is
//! believed of that crate, not proved.

use vstd::prelude::*;

verus! {

/// The document that holds the number `n`.
pub uninterp spec fn json_number(n: u64) -> serde_json::Value;

/// The document that holds the truth value `b`.
pub uninterp spec fn json_boolean(b: bool) -> serde_json::Value;

/// The document that is an object with the members `entries`, whose
/// names differ from each other.
pub uninterp spec fn json_object(entries: Seq<(Seq<char>, serde_json::Value)>) -> serde_json::Value;

/// The number that the document `v` holds, if it holds a whole number that
/// is not negative and fits in 64 bits.
pub uninterp spec fn json_as_u64(v: serde_json::Value) -> Option<u64>;

/// The truth value that the document `v` holds, if it holds one.
pub uninterp spec fn json_as_bool(v: serde_json::Value) -> Option<bool>;

/// The member named `key` of the document `v`, if `v` is an object that
/// has one.
pub uninterp spec fn json_member(v: serde_json::Value, key: Seq<char>) -> Option<serde_json::Value>;

/// The elements of the document `v`, if `v` is a sequence.
pub uninterp spec fn json_elements(v: serde_json::Value) -> Option<Seq<serde_json::Value>>;

/// The entries with their names as sequences.
pub open spec fn entry_views(entries: Seq<(String, serde_json::Value)>) -> Seq<
    (Seq<char>, serde_json::Value),
> {
    Seq::new(entries.len(), |i: int| (entries[i].0@, entries[i].1))
}

/// Whether no entry after entry `i` has the name of entry `i`.
pub open spec fn last_of_its_name(entries: Seq<(Seq<char>, serde_json::Value)>, i: int) -> bool {
    forall|j: int| i < j < entries.len() ==> (#[trigger] entries[j]).0 != entries[i].0
}

/// Whether no two entries have one name.
pub open spec fn names_differ(entries: Seq<(Seq<char>, serde_json::Value)>) -> bool {
    forall|i: int| 0 <= i < entries.len() ==> last_of_its_name(entries, i)
}

/// `Value::from` of serde_json for a `u64`: the document holds the number,
/// and reads back as that number.
#[verifier::external_body]
pub(crate) fn number(n: u64) -> (v: serde_json::Value)
    ensures
        v == json_number(n),
        json_as_u64(v) == Some(n),
{
    serde_json::Value::from(n)
}

/// `Value::from` of serde_json for a `bool`: the document holds the truth
/// value, and reads back as that value.
#[verifier::external_body]
pub(crate) fn boolean(b: bool) -> (v: serde_json::Value)
    ensures
        v == json_boolean(b),
        json_as_bool(v) == Some(b),
{
    serde_json::Value::from(b)
}

/// `Value::Object` of serde_json over the map collected from `entries`,
/// whose names differ from each other: each entry is a member of the
/// object, the object has no member of another name, and an object is no
/// sequence. (Of entries with
/// one name the map keeps one; which one is not said, so such entries are
/// not taken.)
#[verifier::external_body]
pub(crate) fn object(entries: Vec<(String, serde_json::Value)>) -> (v: serde_json::Value)
    requires
        names_differ(entry_views(entries@)),
    ensures
        v == json_object(entry_views(entries@)),
        json_elements(v) is None,
        forall|i: int|
            0 <= i < entries@.len() ==> json_member(v, (#[trigger] entries@[i]).0@) == Some(
                entries@[i].1,
            ),
        forall|key: Seq<char>|
            (forall|i: int| 0 <= i < entries@.len() ==> (#[trigger] entries@[i]).0@ != key)
                ==> #[trigger] json_member(v, key) is None,
{
    serde_json::Value::Object(entries.into_iter().collect())
}

/// `Value::get` of serde_json with a name: the member of that name, if
/// the document is an object that has one.
#[verifier::external_body]
pub(crate) fn member<'a>(v: &'a serde_json::Value, key: &str) -> (m: Option<&'a serde_json::Value>)
    ensures
        match m {
            Some(found) => json_member(*v, key@) == Some(*found),
            None => json_member(*v, key@) is None,
        },
{
    v.get(key)
}

/// `Value::as_u64` of serde_json.
#[verifier::external_body]
pub(crate) fn as_u64(v: &serde_json::Value) -> (n: Option<u64>)
    ensures
        n == json_as_u64(*v),
{
    v.as_u64()
}

/// `Value::as_bool` of serde_json.
#[verifier::external_body]
pub(crate) fn as_bool(v: &serde_json::Value) -> (b: Option<bool>)
    ensures
        b == json_as_bool(*v),
{
    v.as_bool()
}

/// `Value::as_array` of serde_json: the elements of the document, if it
/// is a sequence.
#[verifier::external_body]
pub(crate) fn elements(v: &serde_json::Value) -> (list: Option<&Vec<serde_json::Value>>)
    ensures
        match list {
            Some(found) => json_elements(*v) == Some(found@),
            None => json_elements(*v) is None,
        },
{
    v.as_array()
}

/// Whether the document `v` can hold a record of `count` fields: a
/// sequence holds one only where it has as many elements; an object may
/// hold one whatever else it holds.
pub open spec fn spec_fields_fit(v: serde_json::Value, count: nat) -> bool {
    json_elements(v) matches Some(list) ==> list.len() == count
}

/// The field of a record that the document `v` holds: the member named
/// `key` where `v` is an object, the element at `position` where `v` is a
/// sequence.
pub open spec fn spec_field(v: serde_json::Value, key: Seq<char>, position: nat) -> Option<
    serde_json::Value,
> {
    match json_elements(v) {
        Some(list) => if position < list.len() {
            Some(list[position as int])
        } else {
            None
        },
        None => json_member(v, key),
    }
}

/// The number, of at most 32 bits, that the field of `v` holds.
pub open spec fn spec_field_u32(v: serde_json::Value, key: Seq<char>, position: nat) -> Option<u32> {
    match spec_field(v, key, position) {
        Some(m) => match json_as_u64(m) {
            Some(n) => if n <= u32::MAX {
                Some(n as u32)
            } else {
                None
            },
            None => None,
        },
        None => None,
    }
}

/// The truth value that the field of `v` holds.
pub open spec fn spec_field_bool(v: serde_json::Value, key: Seq<char>, position: nat) -> Option<bool> {
    match spec_field(v, key, position) {
        Some(m) => json_as_bool(m),
        None => None,
    }
}

/// Whether the document `v` can hold a record of `count` fields.
pub fn fields_fit(v: &serde_json::Value, count: usize) -> (fit: bool)
    ensures
        fit == spec_fields_fit(*v, count as nat),
{
    match elements(v) {
        Some(list) => list.len() == count,
        None => true,
    }
}

/// The field of a record that the document `v` holds.
pub fn field<'a>(v: &'a serde_json::Value, key: &str, position: usize) -> (m: Option<
    &'a serde_json::Value,
>)
    ensures
        match m {
            Some(found) => spec_field(*v, key@, position as nat) == Some(*found),
            None => spec_field(*v, key@, position as nat) is None,
        },
{
    match elements(v) {
        Some(list) => if position < list.len() {
            Some(&list[position])
        } else {
            None
        },
        None => member(v, key),
    }
}

/// The number, of at most 32 bits, that the field of `v` holds.
pub fn field_u32(v: &serde_json::Value, key: &str, position: usize) -> (n: Option<u32>)
    ensures
        n == spec_field_u32(*v, key@, position as nat),
{
    match field(v, key, position) {
        Some(m) => match as_u64(m) {
            Some(n) => if n <= u32::MAX as u64 {
                Some(n as u32)
            } else {
                None
            },
            None => None,
        },
        None => None,
    }
}

/// The truth value that the field of `v` holds.
pub fn field_bool(v: &serde_json::Value, key: &str, position: usize) -> (b: Option<bool>)
    ensures
        b == spec_field_bool(*v, key@, position as nat),
{
    match field(v, key, position) {
        Some(m) => as_bool(m),
        None => None,
    }
}

} // verus!
