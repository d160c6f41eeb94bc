//! The ledger: an append-only sequence of records, each linked to the digest
//! of the one before it, with a validation walk that detects tampering.
use crate::block::Block;
use crate::decimal::{decimal, push_decimal};
use vstd::prelude::*;

verus! {

/// Payload of the first record.
pub open spec fn genesis_data() -> Seq<char> {
    "Genesis Block"@
}

/// Previous digest of the first record: a placeholder, not a real digest.
pub open spec fn genesis_previous_hash() -> Seq<char> {
    "0"@
}

/// Record `i` carries the digest of its own fields and names the digest of
/// record `i - 1`.
pub open spec fn linked_at(c: Seq<Block>, i: int) -> bool {
    &&& c[i].is_sealed()
    &&& c[i].previous_hash@ == c[i - 1].hash@
}

/// What the validation walk accepts: every record after the first is sealed
/// and linked to its predecessor. The first record is not checked.
pub open spec fn chain_valid(c: Seq<Block>) -> bool {
    forall|i: int| 1 <= i < c.len() ==> #[trigger] linked_at(c, i)
}

/// The shape of a ledger made by `new` and `add_block` alone: a genesis record
/// at position 0, each record's index equal to its position, every record
/// sealed, and every later record linked to its predecessor.
pub open spec fn well_formed(c: Seq<Block>) -> bool {
    &&& c.len() >= 1
    &&& c[0].data@ == genesis_data()
    &&& c[0].previous_hash@ == genesis_previous_hash()
    &&& forall|i: int| 0 <= i < c.len() ==> (#[trigger] c[i]).index == i && c[i].is_sealed()
    &&& forall|i: int| 1 <= i < c.len() ==> #[trigger] linked_at(c, i)
}

/// The listing of one record: five labelled lines and a line of dashes.
pub open spec fn block_listing(b: Block) -> Seq<char> {
    "Index: "@ + decimal(b.index as nat) + "\nTimestamp: "@ + decimal(b.timestamp as nat)
        + "\nData: "@ + b.data@ + "\nPrevious Hash: "@ + b.previous_hash@ + "\nHash: "@
        + b.hash@ + "\n----------------------------------\n"@
}

/// The listing of a sequence of records, in order.
pub open spec fn chain_listing(c: Seq<Block>) -> Seq<char>
    decreases c.len(),
{
    if c.len() == 0 {
        Seq::empty()
    } else {
        chain_listing(c.drop_last()) + block_listing(c.last())
    }
}

/// Relies on std::time::SystemTime: the whole seconds since the Unix epoch,
/// or `None` where the clock reads earlier than the epoch.
#[verifier::external_body]
pub fn get_time() -> (r: Option<u64>) {
    std::time::SystemTime::now().duration_since(std::time::UNIX_EPOCH).ok().map(|d| d.as_secs())
}

/// An ordered, append-only sequence of records.
pub struct Blockchain {
    pub chain: Vec<Block>,
}

impl Blockchain {
    /// A ledger holding only its genesis record, stamped with the clock's
    /// current time; `None` where the clock cannot be read.
    pub fn new() -> (r: Option<Blockchain>)
        ensures
            r matches Some(b) ==> b.chain@.len() == 1 && well_formed(b.chain@),
    {
        match get_time() {
            Some(t) => Some(Blockchain::with_genesis_time(t)),
            None => None,
        }
    }

    /// A ledger holding only its genesis record, stamped with `timestamp`.
    pub fn with_genesis_time(timestamp: u64) -> (r: Blockchain)
        ensures
            r.chain@.len() == 1,
            r.chain@[0].index == 0,
            r.chain@[0].timestamp == timestamp,
            well_formed(r.chain@),
    {
        let mut chain: Vec<Block> = Vec::new();
        chain.push(Blockchain::create_genesis_block(timestamp));
        Blockchain { chain }
    }

    /// The first record of every ledger.
    pub fn create_genesis_block(timestamp: u64) -> (r: Block)
        ensures
            r.index == 0,
            r.timestamp == timestamp,
            r.data@ == genesis_data(),
            r.previous_hash@ == genesis_previous_hash(),
            r.is_sealed(),
    {
        Block::new(0, timestamp, String::from_str("Genesis Block"), String::from_str("0"))
    }

    /// Appends a record with the next index, linked to the current last
    /// record. The index must fit in `u32`.
    pub fn add_block(&mut self, timestamp: u64, data: String)
        requires
            old(self).chain.len() >= 1,
            old(self).chain.len() <= u32::MAX,
        ensures
            final(self).chain@.len() == old(self).chain@.len() + 1,
            final(self).chain@.drop_last() == old(self).chain@,
            final(self).chain@.last().index == old(self).chain@.len(),
            final(self).chain@.last().timestamp == timestamp,
            final(self).chain@.last().data@ == data@,
            final(self).chain@.last().previous_hash@ == old(self).chain@.last().hash@,
            final(self).chain@.last().is_sealed(),
            well_formed(old(self).chain@) ==> well_formed(final(self).chain@),
            chain_valid(old(self).chain@) ==> chain_valid(final(self).chain@),
    {
        let index = self.chain.len();
        let previous_hash = self.chain[index - 1].hash.clone();
        let block = Block::new(index as u32, timestamp, data, previous_hash);
        self.chain.push(block);
        proof {
            let c = self.chain@;
            assert(c.drop_last() =~= old(self).chain@);
            assert(linked_at(c, index as int));
            assert forall|i: int| 1 <= i < index implies #[trigger] linked_at(c, i) == linked_at(
                old(self).chain@,
                i,
            ) by {
                assert(c[i] == old(self).chain@[i]);
                assert(c[i - 1] == old(self).chain@[i - 1]);
            }
            assert forall|i: int| 0 <= i < index implies #[trigger] c[i] == old(self).chain@[i] by {}
        }
    }

    /// Walks the records after the first, and answers whether each carries
    /// the digest of its own fields and names its predecessor's digest.
    pub fn is_valid(&self) -> (r: bool)
        ensures
            r == chain_valid(self.chain@),
    {
        let n = self.chain.len();
        let mut i: usize = 1;
        while i < n
            invariant
                n == self.chain@.len(),
                1 <= i,
                forall|j: int| 1 <= j < i && j < n ==> #[trigger] linked_at(self.chain@, j),
            decreases n - i,
        {
            let el = &self.chain[i];
            let prev = &self.chain[i - 1];
            let recomputed = el.calculate_hash();
            if !(el.hash == recomputed) {
                assert(!linked_at(self.chain@, i as int));
                return false;
            }
            if !(el.previous_hash == prev.hash) {
                assert(!linked_at(self.chain@, i as int));
                return false;
            }
            assert(linked_at(self.chain@, i as int));
            i = i + 1;
        }
        true
    }

    /// The text listing of every record, in order.
    pub fn listing(&self) -> (r: String)
        ensures
            r@ == chain_listing(self.chain@),
    {
        let mut s = String::new();
        let mut i: usize = 0;
        while i < self.chain.len()
            invariant
                i <= self.chain@.len(),
                s@ == chain_listing(self.chain@.subrange(0, i as int)),
            decreases self.chain@.len() - i,
        {
            let b = &self.chain[i];
            let ghost before = s@;
            s.append("Index: ");
            push_decimal(&mut s, b.index as u64);
            s.append("\nTimestamp: ");
            push_decimal(&mut s, b.timestamp);
            s.append("\nData: ");
            s.append(b.data.as_str());
            s.append("\nPrevious Hash: ");
            s.append(b.previous_hash.as_str());
            s.append("\nHash: ");
            s.append(b.hash.as_str());
            s.append("\n----------------------------------\n");
            proof {
                let next = self.chain@.subrange(0, i + 1);
                assert(next.drop_last() =~= self.chain@.subrange(0, i as int));
                assert(s@ =~= before + block_listing(*b));
            }
            i = i + 1;
        }
        assert(self.chain@.subrange(0, self.chain@.len() as int) =~= self.chain@);
        s
    }
}

} // verus!
