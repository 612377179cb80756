//! The parameter mirror: a fixed-size vector of 32-bit parameter slots,
//! written once per real-time processing block and read by scripts.
//!
//! Each slot carries the raw 32-bit pattern of one parameter value; the host
//! layer converts between its own numeric type and the pattern at the
//! boundary. Out-of-range access never panics: a store to a bad index is a
//! no-op and a load from a bad index yields the zero pattern.

use vstd::prelude::*;

verus! {

/// What a store leaves in the mirror: the slot is updated when the index is
/// in range, and nothing changes when it is not.
pub open spec fn mirror_store(s: Seq<u32>, idx: int, v: u32) -> Seq<u32> {
    if 0 <= idx < s.len() {
        s.update(idx, v)
    } else {
        s
    }
}

/// What a load observes: the slot's value when the index is in range, and
/// the zero pattern when it is not.
pub open spec fn mirror_load(s: Seq<u32>, idx: int) -> u32 {
    if 0 <= idx < s.len() {
        s[idx]
    } else {
        0u32
    }
}

/// A load right after a store to the same in-range slot observes the stored
/// value; every other slot is untouched; and a store to an out-of-range index
/// changes nothing at all.
pub proof fn lemma_store_then_load(s: Seq<u32>, idx: int, v: u32)
    ensures
        0 <= idx < s.len() ==> mirror_load(mirror_store(s, idx, v), idx) == v,
        forall|j: int|
            0 <= j < s.len() && j != idx ==> mirror_load(mirror_store(s, idx, v), j)
                == mirror_load(s, j),
        !(0 <= idx < s.len()) ==> mirror_store(s, idx, v) == s,
{
}

/// The fixed-size vector of parameter slots.
#[derive(Debug, Clone, PartialEq, Eq)]
pub struct AtomicFloatVec {
    v: Vec<u32>,
}

impl AtomicFloatVec {
    /// The slot contents, slot 0 first.
    pub closed spec fn slots(self) -> Seq<u32> {
        self.v@
    }

    /// A mirror with `len` slots, all holding the zero pattern.
    pub fn new(len: usize) -> (r: Self)
        ensures
            r.slots().len() == len,
            forall|i: int| 0 <= i < len ==> r.slots()[i] == 0u32,
    {
        let mut v: Vec<u32> = Vec::new();
        let mut i: usize = 0;
        while i < len
            invariant
                i <= len,
                v@.len() == i,
                forall|j: int| 0 <= j < i ==> v@[j] == 0u32,
            decreases len - i,
        {
            v.push(0u32);
            i = i + 1;
        }
        AtomicFloatVec { v }
    }

    /// The number of slots.
    pub fn len(&self) -> (n: usize)
        ensures
            n == self.slots().len(),
    {
        self.v.len()
    }

    /// Store `val` into slot `idx`; a no-op when `idx` is out of range.
    pub fn set(&mut self, idx: usize, val: u32)
        ensures
            final(self).slots() == mirror_store(old(self).slots(), idx as int, val),
    {
        if idx < self.v.len() {
            self.v.set(idx, val);
        }
    }

    /// Load slot `idx`; the zero pattern when `idx` is out of range.
    pub fn get(&self, idx: usize) -> (r: u32)
        ensures
            r == mirror_load(self.slots(), idx as int),
    {
        if idx < self.v.len() {
            self.v[idx]
        } else {
            0u32
        }
    }

    /// The `get` method the mirror shows to scripts: with exactly one integer
    /// argument it loads the addressed slot (the zero pattern when the index
    /// is out of range, negative included); any other arity is an error.
    pub fn method_get(&self, argv: &Vec<i64>) -> (r: Result<u32, String>)
        ensures
            match r {
                Ok(v) => argv@.len() == 1 && v == mirror_load(self.slots(), argv@[0] as int),
                Err(m) => argv@.len() != 1 && m@ == "get method expects 1 arguments: index"@,
            },
    {
        if argv.len() != 1 {
            return Err(String::from_str("get method expects 1 arguments: index"));
        }
        let raw: i64 = argv[0];
        if raw >= 0 && (raw as u64) < (self.v.len() as u64) {
            Ok(self.get(raw as usize))
        } else {
            Ok(0u32)
        }
    }
}

/// The error message for a method name the mirror does not know.
pub fn unknown_method_message(key: &str) -> (m: String)
    ensures
        m@ == "unknown method called: "@ + key@,
{
    let mut m = String::from_str("unknown method called: ");
    m.append(key);
    m
}

/// Write one processing block's parameter values into the mirror: slot `i`
/// takes `values[i]`; slots past the end of `values` keep their old contents,
/// values past the end of the mirror are dropped.
pub fn write_block_params(m: &mut AtomicFloatVec, values: &Vec<u32>)
    ensures
        final(m).slots().len() == old(m).slots().len(),
        forall|i: int|
            0 <= i < final(m).slots().len() ==> final(m).slots()[i] == (if i < values@.len() {
                values@[i]
            } else {
                old(m).slots()[i]
            }),
{
    let mut i: usize = 0;
    while i < values.len()
        invariant
            i <= values@.len(),
            m.slots().len() == old(m).slots().len(),
            forall|j: int|
                0 <= j < m.slots().len() ==> m.slots()[j] == (if j < i && j < values@.len() {
                    values@[j]
                } else {
                    old(m).slots()[j]
                }),
        decreases values@.len() - i,
    {
        m.set(i, values[i]);
        i = i + 1;
    }
}

} // verus!
