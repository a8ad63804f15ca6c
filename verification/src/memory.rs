//! Program memory: the mapping from names to runtime values, plus the
//! return slot through which call results travel.
//!
//! Binding a name that is already bound is an error; reading a name that
//! was never bound is an error.  A fresh memory is pre-populated with the
//! four turn constants every program may rely on.

use vstd::prelude::*;
use std::rc::Rc;
use crate::errors::{KclError, KclErrorDetails};
use crate::json::{JNumber, JValue};
use crate::source_range::SourceRange;
use crate::util::{concat2, concat3, rc_dup, str_eq};
use crate::values::{MemoryItem, UserVal};

verus! {

/// What a function body left in the return slot.
#[derive(Debug, Clone, PartialEq)]
pub enum ProgramReturn {
    /// The function-scope sentinel, not yet realized into a value.
    Arguments,
    /// A returned value.
    Value(Rc<MemoryItem>),
}

impl ProgramReturn {
    /// The returned value; asking the sentinel for one is an error.
    pub fn get_value(&self) -> (r: Result<Rc<MemoryItem>, KclError>)
        ensures
            match self {
                ProgramReturn::Value(v) => r matches Result::Ok(got) && got == *v,
                ProgramReturn::Arguments => r matches Result::Err(e) && e matches
                    KclError::Semantic(d) && d.message@ == "Cannot get value from arguments"@
                    && d.source_ranges@ =~= Seq::<SourceRange>::empty(),
            },
    {
        match self {
            ProgramReturn::Value(v) => Result::Ok(rc_dup(v)),
            ProgramReturn::Arguments => Result::Err(
                KclError::Semantic(
                    KclErrorDetails {
                        message: "Cannot get value from arguments".to_owned(),
                        source_ranges: Vec::new(),
                    },
                ),
            ),
        }
    }
}

/// The value bound to a name: the first matching entry.
pub open spec fn mem_lookup(entries: Seq<(String, Rc<MemoryItem>)>, key: Seq<char>) -> Option<
    Rc<MemoryItem>,
>
    decreases entries.len(),
{
    if entries.len() == 0 {
        Option::None
    } else if entries[0].0@ == key {
        Option::Some(entries[0].1)
    } else {
        mem_lookup(entries.drop_first(), key)
    }
}

proof fn lemma_mem_lookup_skip(entries: Seq<(String, Rc<MemoryItem>)>, key: Seq<char>, i: int)
    requires
        0 <= i <= entries.len(),
        forall|j: int| 0 <= j < i ==> entries[j].0@ != key,
    ensures
        mem_lookup(entries, key) == mem_lookup(entries.subrange(i, entries.len() as int), key),
    decreases i,
{
    if i > 0 {
        lemma_mem_lookup_skip(entries, key, i - 1);
        let tail = entries.subrange(i - 1, entries.len() as int);
        assert(tail[0] == entries[i - 1]);
        assert(tail.drop_first() =~= entries.subrange(i, entries.len() as int));
    } else {
        assert(entries.subrange(0, entries.len() as int) =~= entries);
    }
}

/// Appending a fresh binding leaves every other name's binding alone.
proof fn lemma_mem_lookup_push(
    entries: Seq<(String, Rc<MemoryItem>)>,
    pair: (String, Rc<MemoryItem>),
    key: Seq<char>,
)
    ensures
        mem_lookup(entries.push(pair), key) == if mem_lookup(entries, key) is Some {
            mem_lookup(entries, key)
        } else if pair.0@ == key {
            Option::Some(pair.1)
        } else {
            Option::None::<Rc<MemoryItem>>
        },
    decreases entries.len(),
{
    reveal_with_fuel(mem_lookup, 3);
    if entries.len() == 0 {
        assert(entries.push(pair)[0] == pair);
        assert(entries.push(pair).drop_first() =~= Seq::<(String, Rc<MemoryItem>)>::empty());
    } else {
        assert(entries.push(pair)[0] == entries[0]);
        assert(entries.push(pair).drop_first() =~= entries.drop_first().push(pair));
        lemma_mem_lookup_push(entries.drop_first(), pair, key);
    }
}

/// The mapping from names to values, with the return slot.
#[derive(Debug, Clone, PartialEq)]
pub struct ProgramMemory {
    /// The bindings, in binding order, names pairwise distinct.
    pub root: Vec<(String, Rc<MemoryItem>)>,
    /// The return slot.
    pub return_: Option<ProgramReturn>,
}

impl ProgramMemory {
    /// The value bound to `key`, if any.
    pub open spec fn lookup(&self, key: Seq<char>) -> Option<Rc<MemoryItem>> {
        mem_lookup(self.root@, key)
    }

    /// Whether `key` is bound.
    pub open spec fn contains(&self, key: Seq<char>) -> bool {
        self.lookup(key) is Some
    }

    /// A fresh memory: the four turn constants are pre-bound, the return
    /// slot is empty.
    pub fn new() -> (r: Self)
        ensures
            r.return_ is None,
            r.lookup("ZERO"@) matches Option::Some(v) && is_plain_int(v, 0),
            r.lookup("QUARTER_TURN"@) matches Option::Some(v) && is_plain_int(v, 90),
            r.lookup("HALF_TURN"@) matches Option::Some(v) && is_plain_int(v, 180),
            r.lookup("THREE_QUARTER_TURN"@) matches Option::Some(v) && is_plain_int(v, 270),
            forall|k: Seq<char>|
                r.contains(k) ==> k == "ZERO"@ || k == "QUARTER_TURN"@ || k == "HALF_TURN"@
                    || k == "THREE_QUARTER_TURN"@,
    {
        proof {
            reveal_strlit("ZERO");
            reveal_strlit("QUARTER_TURN");
            reveal_strlit("HALF_TURN");
            reveal_strlit("THREE_QUARTER_TURN");
        }
        let mut root: Vec<(String, Rc<MemoryItem>)> = Vec::new();
        root.push(("ZERO".to_owned(), Rc::new(plain_int(0))));
        root.push(("QUARTER_TURN".to_owned(), Rc::new(plain_int(90))));
        root.push(("HALF_TURN".to_owned(), Rc::new(plain_int(180))));
        root.push(("THREE_QUARTER_TURN".to_owned(), Rc::new(plain_int(270))));
        let r = ProgramMemory { root, return_: Option::None };
        proof {
            let rs = r.root@;
            assert(rs.len() == 4);
            assert(is_plain_int(rs[0].1, 0));
            assert(is_plain_int(rs[1].1, 90));
            assert(is_plain_int(rs[2].1, 180));
            assert(is_plain_int(rs[3].1, 270));
            let s0 = Seq::<(String, Rc<MemoryItem>)>::empty();
            let s1 = s0.push(rs[0]);
            let s2 = s1.push(rs[1]);
            let s3 = s2.push(rs[2]);
            assert(rs =~= s3.push(rs[3]));
            assert forall|k: Seq<char>|
                mem_lookup(rs, k) == if k == "ZERO"@ {
                    Option::Some(rs[0].1)
                } else if k == "QUARTER_TURN"@ {
                    Option::Some(rs[1].1)
                } else if k == "HALF_TURN"@ {
                    Option::Some(rs[2].1)
                } else if k == "THREE_QUARTER_TURN"@ {
                    Option::Some(rs[3].1)
                } else {
                    Option::None::<Rc<MemoryItem>>
                } by {
                reveal_strlit("ZERO");
                reveal_strlit("QUARTER_TURN");
                reveal_strlit("HALF_TURN");
                reveal_strlit("THREE_QUARTER_TURN");
                lemma_mem_lookup_push(s0, rs[0], k);
                lemma_mem_lookup_push(s1, rs[1], k);
                lemma_mem_lookup_push(s2, rs[2], k);
                lemma_mem_lookup_push(s3, rs[3], k);
            }
            reveal_strlit("ZERO");
            reveal_strlit("QUARTER_TURN");
            reveal_strlit("HALF_TURN");
            reveal_strlit("THREE_QUARTER_TURN");
            assert("ZERO"@.len() == 4);
            assert("QUARTER_TURN"@.len() == 12);
            assert("HALF_TURN"@.len() == 9);
            assert("THREE_QUARTER_TURN"@.len() == 18);
            assert("ZERO"@ != "QUARTER_TURN"@ && "ZERO"@ != "HALF_TURN"@ && "ZERO"@
                != "THREE_QUARTER_TURN"@);
            assert("QUARTER_TURN"@ != "HALF_TURN"@ && "QUARTER_TURN"@
                != "THREE_QUARTER_TURN"@);
            assert("HALF_TURN"@ != "THREE_QUARTER_TURN"@);
            assert(r.lookup("ZERO"@) == Option::Some(rs[0].1)) by {
                reveal_with_fuel(mem_lookup, 2);
                lemma_mem_lookup_push(s0, rs[0], "ZERO"@);
                lemma_mem_lookup_push(s1, rs[1], "ZERO"@);
                lemma_mem_lookup_push(s2, rs[2], "ZERO"@);
                lemma_mem_lookup_push(s3, rs[3], "ZERO"@);
            }
            assert(r.lookup("QUARTER_TURN"@) == Option::Some(rs[1].1)) by {
                reveal_with_fuel(mem_lookup, 2);
                lemma_mem_lookup_push(s0, rs[0], "QUARTER_TURN"@);
                lemma_mem_lookup_push(s1, rs[1], "QUARTER_TURN"@);
                lemma_mem_lookup_push(s2, rs[2], "QUARTER_TURN"@);
                lemma_mem_lookup_push(s3, rs[3], "QUARTER_TURN"@);
            }
            assert(r.lookup("HALF_TURN"@) == Option::Some(rs[2].1)) by {
                reveal_with_fuel(mem_lookup, 2);
                lemma_mem_lookup_push(s0, rs[0], "HALF_TURN"@);
                lemma_mem_lookup_push(s1, rs[1], "HALF_TURN"@);
                lemma_mem_lookup_push(s2, rs[2], "HALF_TURN"@);
                lemma_mem_lookup_push(s3, rs[3], "HALF_TURN"@);
            }
            assert(r.lookup("THREE_QUARTER_TURN"@) == Option::Some(rs[3].1)) by {
                reveal_with_fuel(mem_lookup, 2);
                lemma_mem_lookup_push(s0, rs[0], "THREE_QUARTER_TURN"@);
                lemma_mem_lookup_push(s1, rs[1], "THREE_QUARTER_TURN"@);
                lemma_mem_lookup_push(s2, rs[2], "THREE_QUARTER_TURN"@);
                lemma_mem_lookup_push(s3, rs[3], "THREE_QUARTER_TURN"@);
            }
        }
        r
    }

    /// Bind `key` to `value`.  A name already bound is never rebound: that
    /// is the `ValueAlreadyDefined` error, and the memory is unchanged.
    pub fn add(&mut self, key: &str, value: MemoryItem, source_range: SourceRange) -> (r: Result<
        (),
        KclError,
    >)
        ensures
            old(self).contains(key@) ==> (r matches Result::Err(e) && e matches
                KclError::ValueAlreadyDefined(d) && d.message@ == "Cannot redefine "@ + key@
                && d.source_ranges@ =~= seq![source_range] && *final(self) == *old(self)),
            !old(self).contains(key@) ==> (r is Ok && final(self).return_ == old(self).return_
                && (final(self).lookup(key@) matches Option::Some(v) && v == value) && forall|
                k: Seq<char>,
            |
                k != key@ ==> final(self).lookup(k) == old(self).lookup(k)),
    {
        self.add_handle(key, Rc::new(value), source_range)
    }

    /// Bind `key` to an already shared value, with [`Self::add`]'s
    /// behavior.
    pub fn add_handle(&mut self, key: &str, value: Rc<MemoryItem>, source_range: SourceRange) -> (r:
        Result<(), KclError>)
        ensures
            old(self).contains(key@) ==> (r matches Result::Err(e) && e matches
                KclError::ValueAlreadyDefined(d) && d.message@ == "Cannot redefine "@ + key@
                && d.source_ranges@ =~= seq![source_range] && *final(self) == *old(self)),
            !old(self).contains(key@) ==> (r is Ok && final(self).return_ == old(self).return_
                && final(self).lookup(key@) == Option::Some(value) && forall|k: Seq<char>|
                k != key@ ==> final(self).lookup(k) == old(self).lookup(k)),
    {
        if self.get_handle(key).is_some() {
            let mut ranges: Vec<SourceRange> = Vec::new();
            ranges.push(source_range);
            return Result::Err(
                KclError::ValueAlreadyDefined(
                    KclErrorDetails {
                        message: concat2("Cannot redefine ", key),
                        source_ranges: ranges,
                    },
                ),
            );
        }
        let pair = (key.to_owned(), value);
        proof {
            lemma_mem_lookup_push(self.root@, pair, key@);
            assert forall|k: Seq<char>| k != key@ implies mem_lookup(self.root@.push(pair), k)
                == mem_lookup(self.root@, k) by {
                lemma_mem_lookup_push(self.root@, pair, k);
            }
        }
        self.root.push(pair);
        Result::Ok(())
    }

    /// The error a read of the unbound `key` reports.
    pub fn undefined_value_error(key: &str, source_range: SourceRange) -> (r: KclError)
        ensures
            r matches KclError::UndefinedValue(d) && d.message@ == "memory item key `"@ + key@
                + "` is not defined"@ && d.source_ranges@ =~= seq![source_range],
    {
        let mut ranges: Vec<SourceRange> = Vec::new();
        ranges.push(source_range);
        KclError::UndefinedValue(
            KclErrorDetails {
                message: concat3("memory item key `", key, "` is not defined"),
                source_ranges: ranges,
            },
        )
    }

    /// The handle bound to `key`, if any.
    #[verifier::loop_isolation(false)]
    pub fn get_handle(&self, key: &str) -> (r: Option<&Rc<MemoryItem>>)
        ensures
            match r {
                Option::Some(v) => self.lookup(key@) == Option::Some(*v),
                Option::None => self.lookup(key@) is None,
            },
    {
        let n = self.root.len();
        let mut i: usize = 0;
        while i < n
            invariant
                i <= n,
                forall|j: int| 0 <= j < i ==> self.root@[j].0@ != key@,
            decreases n - i,
        {
            if str_eq(self.root[i].0.as_str(), key) {
                proof {
                    lemma_mem_lookup_skip(self.root@, key@, i as int);
                    let tail = self.root@.subrange(i as int, self.root@.len() as int);
                    assert(tail[0] == self.root@[i as int]);
                }
                return Option::Some(&self.root[i].1);
            }
            i = i + 1;
        }
        proof {
            lemma_mem_lookup_skip(self.root@, key@, n as int);
        }
        Option::None
    }

    /// Read the value bound to `key`.  Reading a name that was never bound
    /// is the `UndefinedValue` error, and never falls back to a default.
    pub fn get(&self, key: &str, source_range: SourceRange) -> (r: Result<&MemoryItem, KclError>)
        ensures
            self.contains(key@) ==> (r matches Result::Ok(v) && self.lookup(key@)
                matches Option::Some(h) && h == *v),
            !self.contains(key@) ==> (r matches Result::Err(e) && e matches
                KclError::UndefinedValue(d) && d.message@ == "memory item key `"@ + key@
                + "` is not defined"@ && d.source_ranges@ =~= seq![source_range]),
    {
        match self.get_handle(key) {
            Option::Some(v) => Result::Ok(v),
            Option::None => Result::Err(ProgramMemory::undefined_value_error(key, source_range)),
        }
    }

    /// Store a returned value in the return slot.
    pub fn set_return(&mut self, value: Rc<MemoryItem>)
        ensures
            final(self).return_ == Option::Some(ProgramReturn::Value(value)),
            final(self).root@ == old(self).root@,
    {
        self.return_ = Option::Some(ProgramReturn::Value(value));
    }

    /// Mark the return slot with the function-scope sentinel.
    pub fn set_arguments_sentinel(&mut self)
        ensures
            final(self).return_ == Option::Some(ProgramReturn::Arguments),
            final(self).root@ == old(self).root@,
    {
        self.return_ = Option::Some(ProgramReturn::Arguments);
    }

    /// Take a scoped copy: same bindings, same return slot.  Values are
    /// shared, never rebuilt.
    #[verifier::loop_isolation(false)]
    pub fn duplicate(&self) -> (r: ProgramMemory)
        ensures
            r.root@ == self.root@,
            r.return_ == self.return_,
    {
        let mut root: Vec<(String, Rc<MemoryItem>)> = Vec::new();
        let mut i: usize = 0;
        while i < self.root.len()
            invariant
                i <= self.root@.len(),
                root@ =~= self.root@.subrange(0, i as int),
            decreases self.root@.len() - i,
        {
            let name = self.root[i].0.clone();
            proof {
                assert(name =~= self.root@[i as int].0);
            }
            root.push((name, rc_dup(&self.root[i].1)));
            i = i + 1;
        }
        proof {
            assert(root@ =~= self.root@);
        }
        let return_ = match &self.return_ {
            Option::None => Option::None,
            Option::Some(ProgramReturn::Arguments) => Option::Some(ProgramReturn::Arguments),
            Option::Some(ProgramReturn::Value(v)) => Option::Some(
                ProgramReturn::Value(rc_dup(v)),
            ),
        };
        ProgramMemory { root, return_ }
    }
}

impl Default for ProgramMemory {
    /// A fresh memory, as [`ProgramMemory::new`] builds it.
    fn default() -> (r: Self)
        ensures
            r.return_ is None,
            r.lookup("ZERO"@) matches Option::Some(v) && is_plain_int(v, 0),
            r.lookup("QUARTER_TURN"@) matches Option::Some(v) && is_plain_int(v, 90),
            r.lookup("HALF_TURN"@) matches Option::Some(v) && is_plain_int(v, 180),
            r.lookup("THREE_QUARTER_TURN"@) matches Option::Some(v) && is_plain_int(v, 270),
            forall|k: Seq<char>|
                r.contains(k) ==> k == "ZERO"@ || k == "QUARTER_TURN"@ || k == "HALF_TURN"@
                    || k == "THREE_QUARTER_TURN"@,
    {
        ProgramMemory::new()
    }
}

/// Whether a handle holds a user value that is exactly the integer `n`
/// with no provenance.
pub open spec fn is_plain_int(v: Rc<MemoryItem>, n: i64) -> bool {
    &&& *v matches MemoryItem::UserVal(u)
    &&& u.value == JValue::Num(JNumber::Int(n))
    &&& u.meta@ == Seq::<crate::source_range::Metadata>::empty()
}

/// A user value holding exactly the integer `n`, with no provenance.
pub fn plain_int(n: i64) -> (r: MemoryItem)
    ensures
        r matches MemoryItem::UserVal(u) && u.value == JValue::Num(JNumber::Int(n)) && u.meta@
            =~= Seq::<crate::source_range::Metadata>::empty(),
{
    MemoryItem::UserVal(UserVal { value: JValue::from_i64(n), meta: Vec::new() })
}

} // verus!
