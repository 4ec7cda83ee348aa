//! A plain model of a loosely-typed JSON document, with the accessors
//! the payload parsers need: field lookup on objects, and scalar reads
//! that degrade to a default when the field is absent or of the wrong
//! type.
use vstd::prelude::*;

use crate::strutil::str_eq;

verus! {

/// A JSON document as plain values. Numbers carry only their integer
/// reading; a number outside `i64` stands as `Null`, which the scalar
/// accessors treat the same as any other non-integer value.
#[derive(Debug)]
pub enum JsonVal {
    Null,
    Bool(bool),
    Int(i64),
    Str(String),
    Arr(Vec<JsonVal>),
    Obj(Vec<(String, JsonVal)>),
}

/// First binding of `name` in an object's field list.
pub open spec fn obj_lookup(fields: Seq<(String, JsonVal)>, name: Seq<char>) -> Option<JsonVal>
    decreases fields.len(),
{
    if fields.len() == 0 {
        None
    } else if fields[0].0@ == name {
        Some(fields[0].1)
    } else {
        obj_lookup(fields.drop_first(), name)
    }
}

/// The value of field `name`, when `v` is an object that has it.
pub open spec fn jfield(v: JsonVal, name: Seq<char>) -> Option<JsonVal> {
    match v {
        JsonVal::Obj(fields) => obj_lookup(fields@, name),
        _ => None,
    }
}

/// The string content of field `name`, or `default` when the field is
/// absent or not a string.
pub open spec fn jstr_or(v: JsonVal, name: Seq<char>, default: Seq<char>) -> Seq<char> {
    match jfield(v, name) {
        Some(JsonVal::Str(s)) => s@,
        _ => default,
    }
}

/// The string content of field `name`, when present with a string.
pub open spec fn jstr_opt(v: JsonVal, name: Seq<char>) -> Option<Seq<char>> {
    match jfield(v, name) {
        Some(JsonVal::Str(s)) => Some(s@),
        _ => None,
    }
}

/// The integer content of field `name`, or `default` when the field is
/// absent or not an integer.
pub open spec fn jint_or(v: JsonVal, name: Seq<char>, default: i64) -> i64 {
    match jfield(v, name) {
        Some(JsonVal::Int(n)) => n,
        _ => default,
    }
}

/// The integer content of field `name`, when present with an integer.
pub open spec fn jint_opt(v: JsonVal, name: Seq<char>) -> Option<i64> {
    match jfield(v, name) {
        Some(JsonVal::Int(n)) => Some(n),
        _ => None,
    }
}

/// The elements of field `name`, when present with an array.
pub open spec fn jarr_opt(v: JsonVal, name: Seq<char>) -> Option<Seq<JsonVal>> {
    match jfield(v, name) {
        Some(JsonVal::Arr(items)) => Some(items@),
        _ => None,
    }
}

impl JsonVal {
    /// Looks `name` up when `self` is an object.
    pub fn get<'a>(&'a self, name: &str) -> (r: Option<&'a JsonVal>)
        ensures
            match r {
                Some(x) => jfield(*self, name@) == Some(*x),
                None => jfield(*self, name@) is None,
            },
    {
        match self {
            JsonVal::Obj(fields) => {
                let n = fields.len();
                let mut i: usize = 0;
                proof {
                    assert(fields@.skip(0) =~= fields@);
                }
                while i < n
                    invariant
                        *self is Obj && self->Obj_0 == *fields,
                        n == fields@.len(),
                        0 <= i <= n,
                        obj_lookup(fields@, name@) == obj_lookup(
                            fields@.skip(i as int),
                            name@,
                        ),
                    decreases n - i,
                {
                    proof {
                        assert(fields@.skip(i as int)[0] == fields@[i as int]);
                        assert(fields@.skip(i as int).drop_first() =~= fields@.skip(
                            i + 1,
                        ));
                    }
                    if str_eq(fields[i].0.as_str(), name) {
                        proof {
                            assert(obj_lookup(fields@.skip(i as int), name@) == Some(
                                fields@[i as int].1,
                            ));
                            assert(jfield(*self, name@) == obj_lookup(fields@, name@));
                        }
                        return Some(&fields[i].1);
                    }
                    i = i + 1;
                }
                proof {
                    assert(fields@.skip(n as int) =~= Seq::<(String, JsonVal)>::empty());
                }
                None
            },
            _ => None,
        }
    }

    /// The string content of field `name`, or an empty string.
    pub fn str_or_empty(&self, name: &str) -> (r: String)
        ensures
            r@ == jstr_or(*self, name@, Seq::<char>::empty()),
    {
        match self.get(name) {
            Some(JsonVal::Str(s)) => s.clone(),
            _ => String::new(),
        }
    }

    /// The string content of field `name`, when present with a string.
    pub fn str_opt(&self, name: &str) -> (r: Option<String>)
        ensures
            match r {
                Some(s) => jstr_opt(*self, name@) == Some(s@),
                None => jstr_opt(*self, name@) is None,
            },
    {
        match self.get(name) {
            Some(JsonVal::Str(s)) => Some(s.clone()),
            _ => None,
        }
    }

    /// The integer content of field `name`, or `default`.
    pub fn int_or(&self, name: &str, default: i64) -> (r: i64)
        ensures
            r == jint_or(*self, name@, default),
    {
        match self.get(name) {
            Some(JsonVal::Int(n)) => *n,
            _ => default,
        }
    }

    /// The integer content of field `name`, when present with an integer.
    pub fn int_opt(&self, name: &str) -> (r: Option<i64>)
        ensures
            r == jint_opt(*self, name@),
    {
        match self.get(name) {
            Some(JsonVal::Int(n)) => Some(*n),
            _ => None,
        }
    }

    /// The elements of field `name`, when present with an array.
    pub fn arr_opt<'a>(&'a self, name: &str) -> (r: Option<&'a Vec<JsonVal>>)
        ensures
            match r {
                Some(items) => jarr_opt(*self, name@) == Some(items@),
                None => jarr_opt(*self, name@) is None,
            },
    {
        match self.get(name) {
            Some(JsonVal::Arr(items)) => Some(items),
            _ => None,
        }
    }
}

} // verus!
