//! A plain model of decoded JSON values.
//!
//! The provider answers with JSON; the unverified shell decodes the bytes
//! and hands the tree over in this type, one node for one node. Numbers are
//! held in thousandths so that the provider's one-decimal readings stay
//! exact without floating point: an integer number `n` becomes `Int(n)`,
//! any other number becomes `Dec` of its value read to thousandths.
//! All shape decisions (which keys, which types, which lengths) are made
//! here in verified code.

use vstd::prelude::*;
use crate::errors::ParseError;

verus! {

/// One decoded JSON node.
#[derive(Debug, PartialEq)]
pub enum JsonVal {
    Null,
    Bool(bool),
    /// A number that is an integer.
    Int(i64),
    /// A non-integer number, in thousandths.
    Dec(i64),
    Str(String),
    Arr(Vec<JsonVal>),
    /// Object entries in source order; keys are unique.
    Obj(Vec<(String, JsonVal)>),
}

/// First value bound to `key` among `entries`.
pub open spec fn obj_get(entries: Seq<(String, JsonVal)>, key: Seq<char>) -> Option<JsonVal>
    decreases entries.len(),
{
    if entries.len() == 0 {
        None
    } else if entries[0].0@ == key {
        Some(entries[0].1)
    } else {
        obj_get(entries.drop_first(), key)
    }
}

/// Value bound to `key` if `v` is an object that has it.
pub open spec fn jv_get(v: JsonVal, key: Seq<char>) -> Option<JsonVal> {
    match v {
        JsonVal::Obj(entries) => obj_get(entries@, key),
        _ => None,
    }
}

/// The integer a node holds, if it is an integer number.
pub open spec fn spec_as_int(v: JsonVal) -> Option<i64> {
    match v {
        JsonVal::Int(n) => Some(n),
        _ => None,
    }
}

/// The numeric value of a node in thousandths, if it is a number whose
/// thousandths fit the machine word.
pub open spec fn spec_as_milli(v: JsonVal) -> Option<i64> {
    match v {
        JsonVal::Int(n) => n.checked_mul(1000),
        JsonVal::Dec(m) => Some(m),
        _ => None,
    }
}

/// The text a node holds, if it is a string.
pub open spec fn spec_as_text(v: JsonVal) -> Option<Seq<char>> {
    match v {
        JsonVal::Str(s) => Some(s@),
        _ => None,
    }
}

/// The truth value a node holds, if it is a boolean.
pub open spec fn spec_as_bool(v: JsonVal) -> Option<bool> {
    match v {
        JsonVal::Bool(b) => Some(b),
        _ => None,
    }
}

/// The elements a node holds, if it is an array.
pub open spec fn spec_elems(v: JsonVal) -> Option<Seq<JsonVal>> {
    match v {
        JsonVal::Arr(a) => Some(a@),
        _ => None,
    }
}

/// Indexing a node as the provider's columnar format does: the `i`-th
/// element of an array, and `Null` out of bounds or on a non-array.
pub open spec fn elem_at(v: JsonVal, i: int) -> JsonVal {
    match v {
        JsonVal::Arr(a) => if 0 <= i < a@.len() {
            a@[i]
        } else {
            JsonVal::Null
        },
        _ => JsonVal::Null,
    }
}

impl JsonVal {
    /// Look `key` up in an object node.
    pub fn get<'a>(&'a self, key: &str) -> (r: Option<&'a JsonVal>)
        ensures
            match r {
                Some(x) => jv_get(*self, key@) == Some(*x),
                None => jv_get(*self, key@) is None,
            },
    {
        let entries = match self {
            JsonVal::Obj(entries) => entries,
            _ => { return None; },
        };
        let key_string = key.to_owned();
        let ghost all = entries@;
        proof {
            assert(all.skip(0) =~= all);
        }
        let mut i: usize = 0;
        while i < entries.len()
            invariant
                0 <= i <= all.len(),
                entries@ == all,
                self is Obj,
                obj_get(all, key@) == obj_get(all.skip(i as int), key@),
                jv_get(*self, key@) == obj_get(all, key@),
                key_string@ == key@,
            decreases entries.len() - i,
        {
            if entries[i].0 == key_string {
                proof {
                    assert(all.skip(i as int)[0] == all[i as int]);
                }
                return Some(&entries[i].1);
            }
            proof {
                assert(all.skip(i as int).drop_first() =~= all.skip(i as int + 1));
                assert(all.skip(i as int)[0] == all[i as int]);
            }
            i = i + 1;
        }
        proof {
            assert(all.skip(i as int).len() == 0);
        }
        None
    }

    /// The node's integer, if it is an integer number.
    pub fn as_int(&self) -> (r: Option<i64>)
        ensures
            r == spec_as_int(*self),
    {
        match self {
            JsonVal::Int(n) => Some(*n),
            _ => None,
        }
    }

    /// The node's numeric value in thousandths, if it is a number.
    pub fn as_milli(&self) -> (r: Option<i64>)
        ensures
            r == spec_as_milli(*self),
    {
        match self {
            JsonVal::Int(n) => n.checked_mul(1000),
            JsonVal::Dec(m) => Some(*m),
            _ => None,
        }
    }

    /// The node's text, if it is a string.
    pub fn as_text<'a>(&'a self) -> (r: Option<&'a String>)
        ensures
            match r {
                Some(s) => spec_as_text(*self) == Some(s@),
                None => spec_as_text(*self) is None,
            },
    {
        match self {
            JsonVal::Str(s) => Some(s),
            _ => None,
        }
    }

    /// The node's truth value, if it is a boolean.
    pub fn as_bool(&self) -> (r: Option<bool>)
        ensures
            r == spec_as_bool(*self),
    {
        match self {
            JsonVal::Bool(b) => Some(*b),
            _ => None,
        }
    }

    /// The node's elements, if it is an array.
    pub fn as_arr<'a>(&'a self) -> (r: Option<&'a Vec<JsonVal>>)
        ensures
            match r {
                Some(a) => spec_elems(*self) == Some(a@),
                None => spec_elems(*self) is None,
            },
    {
        match self {
            JsonVal::Arr(a) => Some(a),
            _ => None,
        }
    }

    /// The `i`-th element of the array bound to `key`, `Null` when the key
    /// is missing, not an array, or too short — exactly how the provider's
    /// columnar cells are read.
    pub fn cell<'a>(&'a self, key: &str, i: usize) -> (r: &'a JsonVal)
        ensures
            *r == (match jv_get(*self, key@) {
                Some(col) => elem_at(col, i as int),
                None => JsonVal::Null,
            }),
    {
        match self.get(key) {
            None => &JsonVal::Null,
            Some(col) => match col {
                JsonVal::Arr(a) => {
                    if i < a.len() {
                        &a[i]
                    } else {
                        &JsonVal::Null
                    }
                },
                _ => &JsonVal::Null,
            },
        }
    }
}

/// Two nodes describe the same JSON document: equal shapes and scalars,
/// with text compared by its characters.
pub open spec fn jv_sim(a: JsonVal, b: JsonVal) -> bool
    decreases a,
{
    match (a, b) {
        (JsonVal::Null, JsonVal::Null) => true,
        (JsonVal::Bool(x), JsonVal::Bool(y)) => x == y,
        (JsonVal::Int(x), JsonVal::Int(y)) => x == y,
        (JsonVal::Dec(x), JsonVal::Dec(y)) => x == y,
        (JsonVal::Str(x), JsonVal::Str(y)) => x@ == y@,
        (JsonVal::Arr(xs), JsonVal::Arr(ys)) => xs@.len() == ys@.len()
            && (forall|i: int| 0 <= i < xs@.len() ==> jv_sim(#[trigger] xs@[i], ys@[i])),
        (JsonVal::Obj(xs), JsonVal::Obj(ys)) => xs@.len() == ys@.len()
            && (forall|i: int| 0 <= i < xs@.len()
                ==> (#[trigger] xs@[i]).0@ == ys@[i].0@ && jv_sim(xs@[i].1, ys@[i].1)),
        _ => false,
    }
}

/// Equivalent objects answer a lookup with equivalent values.
proof fn lemma_sim_entries_get(xs: Seq<(String, JsonVal)>, ys: Seq<(String, JsonVal)>,
    key: Seq<char>)
    requires
        xs.len() == ys.len(),
        forall|i: int| 0 <= i < xs.len()
            ==> (#[trigger] xs[i]).0@ == ys[i].0@ && jv_sim(xs[i].1, ys[i].1),
    ensures
        (match (obj_get(xs, key), obj_get(ys, key)) {
            (Some(x), Some(y)) => jv_sim(x, y),
            (None, None) => true,
            _ => false,
        }),
    decreases xs.len(),
{
    if xs.len() > 0 {
        assert(xs[0].0@ == ys[0].0@ && jv_sim(xs[0].1, ys[0].1));
        if xs[0].0@ != key {
            assert forall|i: int| 0 <= i < xs.drop_first().len()
                implies (#[trigger] xs.drop_first()[i]).0@ == ys.drop_first()[i].0@
                    && jv_sim(xs.drop_first()[i].1, ys.drop_first()[i].1) by {
                assert(xs.drop_first()[i] == xs[i + 1]);
                assert(ys.drop_first()[i] == ys[i + 1]);
            };
            lemma_sim_entries_get(xs.drop_first(), ys.drop_first(), key);
        }
    }
}

/// Equivalent nodes answer a key lookup with equivalent values.
pub proof fn lemma_sim_get(a: JsonVal, b: JsonVal, key: Seq<char>)
    requires
        jv_sim(a, b),
    ensures
        (match (jv_get(a, key), jv_get(b, key)) {
            (Some(x), Some(y)) => jv_sim(x, y),
            (None, None) => true,
            _ => false,
        }),
{
    match (a, b) {
        (JsonVal::Obj(xs), JsonVal::Obj(ys)) => {
            lemma_sim_entries_get(xs@, ys@, key);
        },
        _ => {},
    }
}

/// Equivalent nodes read the same under every scalar and cell accessor.
pub proof fn lemma_sim_reads(a: JsonVal, b: JsonVal)
    requires
        jv_sim(a, b),
    ensures
        spec_as_int(a) == spec_as_int(b),
        spec_as_milli(a) == spec_as_milli(b),
        spec_as_bool(a) == spec_as_bool(b),
        spec_as_text(a) == spec_as_text(b),
        (a is Obj) == (b is Obj),
        (match (spec_elems(a), spec_elems(b)) {
            (Some(x), Some(y)) => x.len() == y.len()
                && (forall|i: int| 0 <= i < x.len() ==> jv_sim(#[trigger] x[i], y[i])),
            (None, None) => true,
            _ => false,
        }),
        forall|i: int| jv_sim(#[trigger] elem_at(a, i), elem_at(b, i)),
{
    assert forall|i: int| jv_sim(#[trigger] elem_at(a, i), elem_at(b, i)) by {
        match (a, b) {
            (JsonVal::Arr(xs), JsonVal::Arr(ys)) => {
                if !(0 <= i < xs@.len()) {
                    assert(jv_sim(JsonVal::Null, JsonVal::Null));
                }
            },
            _ => {
                assert(jv_sim(JsonVal::Null, JsonVal::Null));
            },
        }
    };
}

/// Equivalent nodes read the same under every keyed field accessor.
pub proof fn lemma_sim_field_reads(a: JsonVal, b: JsonVal, key: Seq<char>)
    requires
        jv_sim(a, b),
    ensures
        int_field(a, key) == int_field(b, key),
        text_field(a, key) == text_field(b, key),
        bool_field(a, key) == bool_field(b, key),
        i32_field(a, key) == i32_field(b, key),
        u32_field(a, key) == u32_field(b, key),
        (jv_get(a, key) is Some) == (jv_get(b, key) is Some),
        (match (jv_get(a, key), jv_get(b, key)) {
            (Some(x), Some(y)) => jv_sim(x, y),
            (None, None) => true,
            _ => false,
        }),
        (match (arr_field(a, key), arr_field(b, key)) {
            (Some(x), Some(y)) => x.len() == y.len()
                && (forall|i: int| 0 <= i < x.len() ==> jv_sim(#[trigger] x[i], y[i])),
            (None, None) => true,
            _ => false,
        }),
{
    lemma_sim_get(a, b, key);
    match (jv_get(a, key), jv_get(b, key)) {
        (Some(x), Some(y)) => {
            lemma_sim_reads(x, y);
        },
        _ => {},
    }
}

/// The integer bound to `key`, if present and an integer number.
pub open spec fn int_field(v: JsonVal, key: Seq<char>) -> Option<i64> {
    match jv_get(v, key) {
        Some(x) => spec_as_int(x),
        None => None,
    }
}

/// The text bound to `key`, if present and a string.
pub open spec fn text_field(v: JsonVal, key: Seq<char>) -> Option<Seq<char>> {
    match jv_get(v, key) {
        Some(x) => spec_as_text(x),
        None => None,
    }
}

/// The truth value bound to `key`, if present and a boolean.
pub open spec fn bool_field(v: JsonVal, key: Seq<char>) -> Option<bool> {
    match jv_get(v, key) {
        Some(x) => spec_as_bool(x),
        None => None,
    }
}

/// The elements bound to `key`, if present and an array.
pub open spec fn arr_field(v: JsonVal, key: Seq<char>) -> Option<Seq<JsonVal>> {
    match jv_get(v, key) {
        Some(x) => spec_elems(x),
        None => None,
    }
}

/// The integer bound to `key` narrowed to 32 bits, if present, an integer
/// and in range.
pub open spec fn i32_field(v: JsonVal, key: Seq<char>) -> Option<i32> {
    match int_field(v, key) {
        Some(n) => if i32::MIN <= n <= i32::MAX {
            Some(n as i32)
        } else {
            None
        },
        None => None,
    }
}

/// The integer bound to `key` as an unsigned 32-bit value, if present, an
/// integer and in range.
pub open spec fn u32_field(v: JsonVal, key: Seq<char>) -> Option<u32> {
    match int_field(v, key) {
        Some(n) => if 0 <= n <= u32::MAX {
            Some(n as u32)
        } else {
            None
        },
        None => None,
    }
}

/// Require `key` to be present; a missing key is a `MissingField` error.
pub fn req_node<'a>(v: &'a JsonVal, key: &str) -> (r: Result<&'a JsonVal, ParseError>)
    ensures
        r is Ok <==> jv_get(*v, key@) is Some,
        r is Ok ==> Some(*r.unwrap()) == jv_get(*v, key@),
        r is Err ==> (r.unwrap_err() matches ParseError::MissingField(k) && k@ == key@),
{
    match v.get(key) {
        Some(x) => Ok(x),
        None => Err(ParseError::MissingField(key.to_owned())),
    }
}

/// Require `key` to hold an integer number.
pub fn req_int(v: &JsonVal, key: &str) -> (r: Result<i64, ParseError>)
    ensures
        r is Ok <==> int_field(*v, key@) is Some,
        r is Ok ==> Some(r.unwrap()) == int_field(*v, key@),
        r is Err ==> (match r.unwrap_err() {
            ParseError::MissingField(k) => k@ == key@ && jv_get(*v, key@) is None,
            ParseError::InvalidField(k) => k@ == key@ && jv_get(*v, key@) is Some,
            _ => false,
        }),
{
    match v.get(key) {
        None => Err(ParseError::MissingField(key.to_owned())),
        Some(x) => match x.as_int() {
            Some(n) => Ok(n),
            None => Err(ParseError::InvalidField(key.to_owned())),
        },
    }
}

/// Require `key` to hold an integer that fits 32 signed bits.
pub fn req_i32(v: &JsonVal, key: &str) -> (r: Result<i32, ParseError>)
    ensures
        r is Ok <==> i32_field(*v, key@) is Some,
        r is Ok ==> Some(r.unwrap()) == i32_field(*v, key@),
        r is Err ==> (match r.unwrap_err() {
            ParseError::MissingField(k) => k@ == key@ && jv_get(*v, key@) is None,
            ParseError::InvalidField(k) => k@ == key@ && jv_get(*v, key@) is Some,
            _ => false,
        }),
{
    match req_int(v, key) {
        Err(e) => Err(e),
        Ok(n) => {
            if n >= i32::MIN as i64 && n <= i32::MAX as i64 {
                Ok(n as i32)
            } else {
                Err(ParseError::InvalidField(key.to_owned()))
            }
        },
    }
}

/// Require `key` to hold an integer that fits 32 unsigned bits.
pub fn req_u32(v: &JsonVal, key: &str) -> (r: Result<u32, ParseError>)
    ensures
        r is Ok <==> u32_field(*v, key@) is Some,
        r is Ok ==> Some(r.unwrap()) == u32_field(*v, key@),
        r is Err ==> (match r.unwrap_err() {
            ParseError::MissingField(k) => k@ == key@ && jv_get(*v, key@) is None,
            ParseError::InvalidField(k) => k@ == key@ && jv_get(*v, key@) is Some,
            _ => false,
        }),
{
    match req_int(v, key) {
        Err(e) => Err(e),
        Ok(n) => {
            if n >= 0 && n <= u32::MAX as i64 {
                Ok(n as u32)
            } else {
                Err(ParseError::InvalidField(key.to_owned()))
            }
        },
    }
}

/// Require `key` to hold a string.
pub fn req_text<'a>(v: &'a JsonVal, key: &str) -> (r: Result<&'a String, ParseError>)
    ensures
        r is Ok <==> text_field(*v, key@) is Some,
        r is Ok ==> Some(r.unwrap()@) == text_field(*v, key@),
        r is Err ==> (match r.unwrap_err() {
            ParseError::MissingField(k) => k@ == key@ && jv_get(*v, key@) is None,
            ParseError::InvalidField(k) => k@ == key@ && jv_get(*v, key@) is Some,
            _ => false,
        }),
{
    match v.get(key) {
        None => Err(ParseError::MissingField(key.to_owned())),
        Some(x) => match x.as_text() {
            Some(s) => Ok(s),
            None => Err(ParseError::InvalidField(key.to_owned())),
        },
    }
}

/// Require `key` to hold a boolean.
pub fn req_bool(v: &JsonVal, key: &str) -> (r: Result<bool, ParseError>)
    ensures
        r is Ok <==> bool_field(*v, key@) is Some,
        r is Ok ==> Some(r.unwrap()) == bool_field(*v, key@),
        r is Err ==> (match r.unwrap_err() {
            ParseError::MissingField(k) => k@ == key@ && jv_get(*v, key@) is None,
            ParseError::InvalidField(k) => k@ == key@ && jv_get(*v, key@) is Some,
            _ => false,
        }),
{
    match v.get(key) {
        None => Err(ParseError::MissingField(key.to_owned())),
        Some(x) => match x.as_bool() {
            Some(b) => Ok(b),
            None => Err(ParseError::InvalidField(key.to_owned())),
        },
    }
}

/// Require `key` to hold an array.
pub fn req_arr<'a>(v: &'a JsonVal, key: &str) -> (r: Result<&'a Vec<JsonVal>, ParseError>)
    ensures
        r is Ok <==> arr_field(*v, key@) is Some,
        r is Ok ==> Some(r.unwrap()@) == arr_field(*v, key@),
        r is Err ==> (match r.unwrap_err() {
            ParseError::MissingField(k) => k@ == key@ && jv_get(*v, key@) is None,
            ParseError::InvalidField(k) => k@ == key@ && jv_get(*v, key@) is Some,
            _ => false,
        }),
{
    match v.get(key) {
        None => Err(ParseError::MissingField(key.to_owned())),
        Some(x) => match x.as_arr() {
            Some(a) => Ok(a),
            None => Err(ParseError::InvalidField(key.to_owned())),
        },
    }
}

} // verus!
