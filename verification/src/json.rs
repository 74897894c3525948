//! The library's own model of a structured key-value document.
//!
//! Descriptors and asset indexes are plain trees of this type; the engine's
//! whole resolution logic is specified and verified over it. Numbers keep
//! only their unsigned 64-bit reading (`None` when the number has none),
//! which is all the engine ever consumes.

use vstd::prelude::*;
use crate::strutil::str_eq;

verus! {

/// One value of a structured document.
#[derive(Debug)]
pub enum Json {
    Null,
    Bool(bool),
    /// A number, carrying its unsigned 64-bit value when it has one.
    Num(Option<u64>),
    Str(String),
    Arr(Vec<Json>),
    Obj(Vec<(String, Json)>),
}

/// First value bound to `key` in an ordered field list.
pub open spec fn spec_get_entries(fields: Seq<(String, Json)>, key: Seq<char>) -> Option<Json>
    decreases fields.len(),
{
    if fields.len() == 0 {
        None
    } else if fields[0].0@ == key {
        Some(fields[0].1)
    } else {
        spec_get_entries(fields.skip(1), key)
    }
}

/// Value bound to `key` when `j` is an object holding that key.
pub open spec fn spec_get(j: Json, key: Seq<char>) -> Option<Json> {
    match j {
        Json::Obj(fields) => spec_get_entries(fields@, key),
        _ => None,
    }
}

/// Look `key` up in an ordered field list; the first binding wins.
pub fn obj_get<'a>(fields: &'a Vec<(String, Json)>, key: &str) -> (r: Option<&'a Json>)
    ensures
        match r {
            Some(j) => spec_get_entries(fields@, key@) == Some(*j),
            None => spec_get_entries(fields@, key@) is None,
        },
{
    let n = fields.len();
    let mut idx: usize = 0;
    proof {
        assert(fields@.skip(0) =~= fields@);
    }
    while idx < n
        invariant
            n == fields@.len(),
            idx <= n,
            spec_get_entries(fields@.skip(idx as int), key@) == spec_get_entries(fields@, key@),
        decreases n - idx,
    {
        if str_eq(fields[idx].0.as_str(), key) {
            let found = &fields[idx].1;
            proof {
                assert(fields@.skip(idx as int)[0] == fields@[idx as int]);
            }
            return Some(found);
        }
        proof {
            assert(fields@.skip(idx as int).skip(1) =~= fields@.skip(idx as int + 1));
        }
        idx += 1;
    }
    None
}

impl Json {
    /// Look a field up; `None` when `self` is no object or lacks the key.
    pub fn get<'a>(&'a self, key: &str) -> (r: Option<&'a Json>)
        ensures
            match r {
                Some(j) => spec_get(*self, key@) == Some(*j),
                None => spec_get(*self, key@) is None,
            },
    {
        match self {
            Json::Obj(fields) => obj_get(fields, key),
            _ => None,
        }
    }
}

} // verus!
