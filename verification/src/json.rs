//! A plain model of a parsed JSON document.
//!
//! The host fetches the metadata file and parses it with its own JSON
//! facilities; the surrounding glue converts the parsed tree into this type
//! so that the schema logic of the library can be verified over plain values.

use vstd::prelude::*;

verus! {

/// One member of a JSON object: a name and its value.
pub struct JsonMember {
    pub name: String,
    pub value: JsonValue,
}

/// A parsed JSON value.
///
/// The frame-table schema only consumes small unsigned integers, so a number
/// that has no integral value (a fraction, or one outside the signed 64-bit
/// range) is kept only as the marker `NonInt`: wherever the schema requires a
/// coordinate, that marker is a mismatch, and everywhere else the value is
/// ignored.
pub enum JsonValue {
    Null,
    Bool(bool),
    Int(i64),
    NonInt,
    Str(String),
    Arr(Vec<JsonValue>),
    Obj(Vec<JsonMember>),
}

/// The value of the first member named `name`, if any.
pub open spec fn obj_lookup(entries: Seq<JsonMember>, name: Seq<char>) -> Option<JsonValue>
    decreases entries.len(),
{
    if entries.len() == 0 {
        None
    } else if entries[0].name@ == name {
        Some(entries[0].value)
    } else {
        obj_lookup(entries.drop_first(), name)
    }
}

/// Position of the first member named `name`, if any.
pub fn obj_get(entries: &Vec<JsonMember>, name: &String) -> (r: Option<usize>)
    ensures
        match r {
            Some(i) => {
                &&& i < entries@.len()
                &&& entries@[i as int].name@ == name@
                &&& obj_lookup(entries@, name@) == Some(entries@[i as int].value)
            },
            None => obj_lookup(entries@, name@) is None,
        },
{
    let mut i: usize = 0;
    proof {
        assert(entries@.skip(0) =~= entries@);
    }
    while i < entries.len()
        invariant
            i <= entries@.len(),
            obj_lookup(entries@, name@) == obj_lookup(entries@.skip(i as int), name@),
        decreases entries@.len() - i,
    {
        if entries[i].name == *name {
            proof {
                assert(entries@.skip(i as int)[0] == entries@[i as int]);
            }
            return Some(i);
        }
        proof {
            assert(entries@.skip(i as int).drop_first() =~= entries@.skip(i as int + 1));
        }
        i = i + 1;
    }
    proof {
        assert(entries@.skip(i as int).len() == 0);
    }
    None
}

} // verus!
