//! The portable JSON-like representation that user-visible values carry.
//!
//! A real number is held as the bit pattern of an IEEE-754 double; the core
//! never computes with it — every arithmetic step goes through the host's
//! numeric kernel (see [`crate::host`]).  Arrays, objects and strings sit
//! behind `Rc` handles, so taking a copy of a value shares the payload and
//! is provably the identity.

use vstd::prelude::*;
use std::rc::Rc;
use crate::util::{rc_dup, str_eq};

verus! {

/// An IEEE-754 double, carried as its bit pattern and opaque to the core.
#[derive(Debug, Clone, Copy, PartialEq, Eq, Structural)]
pub struct Real {
    /// The bit pattern of the double.
    pub bits: u64,
}

impl Real {
    /// Positive zero (all bits clear).
    pub fn zero() -> (r: Real)
        ensures
            r == (Real { bits: 0 }),
    {
        Real { bits: 0 }
    }
}

/// A JSON number: integers are kept apart from doubles, because literal
/// integers stay integers while every arithmetic result is a double.
#[derive(Debug, Clone, Copy, PartialEq, Eq, Structural)]
pub enum JNumber {
    /// An integer literal, kept exact.
    Int(i64),
    /// A double, by bit pattern.
    Real(Real),
}

/// A JSON value.
#[derive(Debug, Clone, PartialEq)]
pub enum JValue {
    /// `null`.
    Null,
    /// `true` or `false`.
    Bool(bool),
    /// A number.
    Num(JNumber),
    /// A string.
    Str(Rc<String>),
    /// An array.
    Array(Rc<Vec<JValue>>),
    /// An object: a list of key/value pairs with pairwise distinct keys.
    Object(Rc<Vec<(String, JValue)>>),
}

impl JValue {
    /// Take a copy.  Payloads are shared, so the copy is the same value.
    pub fn duplicate(&self) -> (r: JValue)
        ensures
            r == *self,
    {
        match self {
            JValue::Null => JValue::Null,
            JValue::Bool(b) => JValue::Bool(*b),
            JValue::Num(n) => JValue::Num(*n),
            JValue::Str(s) => JValue::Str(rc_dup(s)),
            JValue::Array(a) => JValue::Array(rc_dup(a)),
            JValue::Object(o) => JValue::Object(rc_dup(o)),
        }
    }

    /// Wrap an integer.
    pub fn from_i64(n: i64) -> (r: JValue)
        ensures
            r == JValue::Num(JNumber::Int(n)),
    {
        JValue::Num(JNumber::Int(n))
    }

    /// Wrap a double given by bit pattern.
    pub fn from_real(x: Real) -> (r: JValue)
        ensures
            r == JValue::Num(JNumber::Real(x)),
    {
        JValue::Num(JNumber::Real(x))
    }
}

/// The value bound to `key` in an entry list: the first matching entry.
pub open spec fn obj_lookup(entries: Seq<(String, JValue)>, key: Seq<char>) -> Option<JValue>
    decreases entries.len(),
{
    if entries.len() == 0 {
        Option::None
    } else if entries[0].0@ == key {
        Option::Some(entries[0].1)
    } else {
        obj_lookup(entries.drop_first(), key)
    }
}

pub proof fn lemma_obj_lookup_step(entries: Seq<(String, JValue)>, key: Seq<char>, i: int)
    requires
        0 <= i <= entries.len(),
        forall|j: int| 0 <= j < i ==> entries[j].0@ != key,
    ensures
        obj_lookup(entries, key) == obj_lookup(entries.subrange(i, entries.len() as int), key),
    decreases i,
{
    if i > 0 {
        lemma_obj_lookup_step(entries, key, i - 1);
        let tail = entries.subrange(i - 1, entries.len() as int);
        assert(tail[0] == entries[i - 1]);
        assert(tail.drop_first() =~= entries.subrange(i, entries.len() as int));
    } else {
        assert(entries.subrange(0, entries.len() as int) =~= entries);
    }
}

/// Find the value bound to `key` in an object's entry list.
#[verifier::loop_isolation(false)]
pub fn obj_get<'a>(entries: &'a Vec<(String, JValue)>, key: &str) -> (r: Option<&'a JValue>)
    ensures
        match r {
            Option::Some(v) => obj_lookup(entries@, key@) == Option::Some(*v),
            Option::None => obj_lookup(entries@, key@) is None,
        },
{
    let n = entries.len();
    let mut i: usize = 0;
    while i < n
        invariant
            i <= n,
            forall|j: int| 0 <= j < i ==> entries@[j].0@ != key@,
        decreases n - i,
    {
        if str_eq(entries[i].0.as_str(), key) {
            proof {
                lemma_obj_lookup_step(entries@, key@, i as int);
                let tail = entries@.subrange(i as int, entries@.len() as int);
                assert(tail[0] == entries@[i as int]);
            }
            return Option::Some(&entries[i].1);
        }
        i = i + 1;
    }
    proof {
        lemma_obj_lookup_step(entries@, key@, n as int);
    }
    Option::None
}

/// Appending a fresh entry changes only its own key's binding.
pub proof fn lemma_obj_lookup_push(
    entries: Seq<(String, JValue)>,
    pair: (String, JValue),
    key: Seq<char>,
)
    ensures
        obj_lookup(entries.push(pair), key) == if obj_lookup(entries, key) is Some {
            obj_lookup(entries, key)
        } else if pair.0@ == key {
            Option::Some(pair.1)
        } else {
            Option::None::<JValue>
        },
    decreases entries.len(),
{
    reveal_with_fuel(obj_lookup, 3);
    if entries.len() == 0 {
        assert(entries.push(pair)[0] == pair);
        assert(entries.push(pair).drop_first() =~= Seq::<(String, JValue)>::empty());
    } else {
        assert(entries.push(pair)[0] == entries[0]);
        assert(entries.push(pair).drop_first() =~= entries.drop_first().push(pair));
        lemma_obj_lookup_push(entries.drop_first(), pair, key);
    }
}

/// Replacing the first entry bound to a key changes only that key's
/// binding.
pub proof fn lemma_obj_lookup_update_first(
    entries: Seq<(String, JValue)>,
    idx: int,
    pair: (String, JValue),
    key: Seq<char>,
)
    requires
        0 <= idx < entries.len(),
        forall|j: int| 0 <= j < idx ==> entries[j].0@ != pair.0@,
        entries[idx].0@ == pair.0@,
    ensures
        obj_lookup(entries.update(idx, pair), key) == if key == pair.0@ {
            Option::Some(pair.1)
        } else {
            obj_lookup(entries, key)
        },
    decreases idx,
{
    reveal_with_fuel(obj_lookup, 2);
    if idx == 0 {
        assert(entries.update(0, pair)[0] == pair);
        assert(entries.update(0, pair).drop_first() =~= entries.drop_first());
    } else {
        assert(entries.update(idx, pair)[0] == entries[0]);
        assert(entries.update(idx, pair).drop_first() =~= entries.drop_first().update(
            idx - 1,
            pair,
        ));
        assert(forall|j: int| 0 <= j < idx - 1 ==> entries.drop_first()[j].0@ != pair.0@);
        lemma_obj_lookup_update_first(entries.drop_first(), idx - 1, pair, key);
    }
}

/// Whether a value is the distinguished "none" sentinel: an object whose
/// `"type"` key holds the string `"KclNone"`.
pub open spec fn spec_is_kcl_none(v: JValue) -> bool {
    match v {
        JValue::Object(entries) => match obj_lookup(entries@, "type"@) {
            Option::Some(t) => t matches JValue::Str(s) && s@ == "KclNone"@,
            Option::None => false,
        },
        _ => false,
    }
}

/// Decide whether a value is the "none" sentinel.
pub fn is_kcl_none(v: &JValue) -> (r: bool)
    ensures
        r == spec_is_kcl_none(*v),
{
    match v {
        JValue::Object(entries) => {
            match obj_get(entries, "type") {
                Option::Some(JValue::Str(s)) => str_eq(s.as_str(), "KclNone"),
                _ => false,
            }
        },
        _ => false,
    }
}

} // verus!
