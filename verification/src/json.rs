//! The untyped structured payloads that arrive with each RPC message,
//! modelled as a plain tree of values, together with field lookup on
//! objects.

use vstd::prelude::*;

verus! {

/// An untyped structured payload, as it arrives from the wire before any
/// typed decoding.  An object keeps its fields as a sequence of
/// key/value pairs; a lookup takes the first pair with a matching key.
/// Numbers are unsigned 64-bit integers, the one numeric kind the
/// protocol's typed payloads use; a field holding any other number is a
/// wrong-typed field to every decoder.
#[derive(Debug, PartialEq, Eq)]
pub enum Json {
    Null,
    Bool(bool),
    UInt(u64),
    Str(String),
    Arr(Vec<Json>),
    Obj(Vec<(String, Json)>),
}

/// Field lookup among the pairs of an object, starting at position `i`:
/// the value of the first pair at or after `i` whose key reads as `key`.
pub open spec fn spec_obj_get_from(fields: Seq<(String, Json)>, key: Seq<char>, i: int) -> Option<Json>
    decreases fields.len() - i,
{
    if i < 0 || i >= fields.len() {
        None
    } else if fields[i].0@ == key {
        Some(fields[i].1)
    } else {
        spec_obj_get_from(fields, key, i + 1)
    }
}

/// Field lookup among the pairs of an object: the value of the first pair
/// whose key reads as `key`, if any.
pub open spec fn spec_obj_get(fields: Seq<(String, Json)>, key: Seq<char>) -> Option<Json> {
    spec_obj_get_from(fields, key, 0)
}

/// Equality of two string slices, decided by their character sequences.
pub(crate) fn str_eq(a: &str, b: &str) -> (r: bool)
    ensures
        r == (a@ == b@),
{
    let sa: String = a.to_string();
    let sb: String = b.to_string();
    sa == sb
}

/// Looks a key up among the fields of an object, returning a reference to
/// the value of the first pair with that key.
pub fn json_obj_get<'a>(fields: &'a Vec<(String, Json)>, key: &str) -> (r: Option<&'a Json>)
    ensures
        match r {
            Some(j) => spec_obj_get(fields@, key@) == Some(*j),
            None => spec_obj_get(fields@, key@) is None,
        },
{
    let mut i: usize = 0;
    while i < fields.len()
        invariant
            i <= fields@.len(),
            spec_obj_get(fields@, key@) == spec_obj_get_from(fields@, key@, i as int),
        decreases fields@.len() - i,
    {
        let pair_key: &String = &fields[i].0;
        if str_eq(pair_key.as_str(), key) {
            return Some(&fields[i].1);
        }
        i = i + 1;
    }
    None
}

} // verus!
