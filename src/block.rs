//! A record of the ledger: its fields and the digest that seals them.
use crate::decimal::{decimal, push_decimal};
use crate::digest::{sha256_hex, sha256_upper_hex};
use vstd::prelude::*;

verus! {

/// The text that a record's digest is taken over: the index and the timestamp
/// in decimal, then the payload, then the previous digest, with no separator
/// between the parts. Different field values can therefore give the same text
/// (payload "1" before "23" reads as payload "12" before "3").
pub open spec fn hash_text(index: nat, timestamp: nat, data: Seq<char>, previous_hash: Seq<char>) -> Seq<
    char,
> {
    decimal(index) + decimal(timestamp) + data + previous_hash
}

/// The digest of a record with the given fields.
pub open spec fn spec_hash(index: nat, timestamp: nat, data: Seq<char>, previous_hash: Seq<char>) -> Seq<
    char,
> {
    sha256_upper_hex(hash_text(index, timestamp, data, previous_hash))
}

/// One record: position, time, payload, the digest of its predecessor and its
/// own digest.
pub struct Block {
    pub index: u32,
    pub timestamp: u64,
    pub data: String,
    pub previous_hash: String,
    pub hash: String,
}

impl Block {
    /// The digest of this record's four input fields as they stand now.
    pub open spec fn computed_hash(&self) -> Seq<char> {
        spec_hash(self.index as nat, self.timestamp as nat, self.data@, self.previous_hash@)
    }

    /// The stored digest is the digest of the stored fields.
    pub open spec fn is_sealed(&self) -> bool {
        self.hash@ == self.computed_hash()
    }

    /// Builds a record and seals it with the digest of its fields.
    pub fn new(index: u32, timestamp: u64, data: String, previous_hash: String) -> (r: Block)
        ensures
            r.index == index,
            r.timestamp == timestamp,
            r.data@ == data@,
            r.previous_hash@ == previous_hash@,
            r.hash@ == spec_hash(index as nat, timestamp as nat, data@, previous_hash@),
            r.is_sealed(),
    {
        let hash = generate_hash(index, timestamp, data.clone(), previous_hash.clone());
        Block { index, timestamp, data, previous_hash, hash }
    }

    /// Recomputes the digest from the stored fields; the stored digest is not
    /// touched.
    pub fn calculate_hash(&self) -> (r: String)
        ensures
            r@ == self.computed_hash(),
    {
        sha256_hex(concat_fields(self.index, self.timestamp, &self.data, &self.previous_hash).as_str())
    }
}

/// The text that the digest is taken over (see `hash_text`).
pub fn concat_fields(index: u32, timestamp: u64, data: &String, previous_hash: &String) -> (r: String)
    ensures
        r@ == hash_text(index as nat, timestamp as nat, data@, previous_hash@),
{
    let mut s = String::new();
    push_decimal(&mut s, index as u64);
    push_decimal(&mut s, timestamp);
    s.append(data.as_str());
    s.append(previous_hash.as_str());
    s
}

/// The digest of a record with the given fields.
pub fn generate_hash(index: u32, timestamp: u64, data: String, previous_hash: String) -> (r: String)
    ensures
        r@ == spec_hash(index as nat, timestamp as nat, data@, previous_hash@),
{
    sha256_hex(concat_fields(index, timestamp, &data, &previous_hash).as_str())
}

} // verus!
