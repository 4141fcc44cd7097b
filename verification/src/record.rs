//! Stored records and the key-hash function that assigns each record
//! to a bucket in the 8-bit hash space.
//!
//! The hash is a 32-bit running product-and-add: it starts at 5381 and
//! folds each character of the key in as `hash * 33 + char`, with
//! unsigned 32-bit wraparound; the final bucket is the hash modulo 256.

use vstd::prelude::*;
use vstd::string::StrSliceExecFns;

verus! {

/// One step of the running hash: multiply by 33, add the character's
/// code point, and wrap to 32 bits.
pub open spec fn hash_step(h: u32, c: char) -> u32 {
    (((h * 33) + (c as u32)) % 0x1_0000_0000) as u32
}

/// The running hash of the first `n` characters of `s`.
pub open spec fn hash_prefix(s: Seq<char>, n: int) -> u32
    decreases n,
{
    if n <= 0 {
        5381u32
    } else {
        hash_step(hash_prefix(s, n - 1), s[n - 1])
    }
}

/// The 32-bit hash of a whole key.
pub open spec fn spec_hash(s: Seq<char>) -> u32 {
    hash_prefix(s, s.len() as int)
}

/// The ownership bucket of a key: its hash reduced to the 8-bit space.
pub open spec fn spec_bucket(s: Seq<char>) -> u8 {
    (spec_hash(s) % 256) as u8
}

/// A key/value record: a 12-character identifier plus two fields.
/// The key is also the hash input; ownership of the record follows
/// the bucket of its key.
#[derive(Debug)]
pub struct Entry {
    pub ssn: String,
    pub name: String,
    pub email: String,
}

/// The mathematical value of an `Entry`: its strings as character
/// sequences.
pub struct EntryModel {
    pub ssn: Seq<char>,
    pub name: Seq<char>,
    pub email: Seq<char>,
}

impl View for Entry {
    type V = EntryModel;

    open spec fn view(&self) -> EntryModel {
        EntryModel { ssn: self.ssn@, name: self.name@, email: self.email@ }
    }
}

impl Entry {
    pub fn new(ssn: String, name: String, email: String) -> (r: Entry)
        ensures
            r.ssn@ == ssn@,
            r.name@ == name@,
            r.email@ == email@,
    {
        Entry { ssn, name, email }
    }

    /// The bucket this record belongs to.
    pub fn hash(&self) -> (r: u8)
        ensures
            r == spec_bucket(self.ssn@),
    {
        Entry::hash_ssn(&self.ssn)
    }

    /// The bucket of a key, computed exactly as `spec_bucket` states it.
    pub fn hash_ssn(ssn: &String) -> (r: u8)
        ensures
            r == spec_bucket(ssn@),
    {
        let s = ssn.as_str();
        let n = s.unicode_len();
        let mut hash: u32 = 5381;
        let mut i: usize = 0;
        while i < n
            invariant
                i <= n,
                n == s@.len(),
                s@ == ssn@,
                hash == hash_prefix(ssn@, i as int),
            decreases n - i,
        {
            let c = s.get_char(i);
            let wide: u64 = (hash as u64) * 33 + (c as u32) as u64;
            hash = (wide % 0x1_0000_0000) as u32;
            i = i + 1;
        }
        (hash % 256) as u8
    }
}

} // verus!
