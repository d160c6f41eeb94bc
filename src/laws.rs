//! Properties of the hashing scheme and of the ledger that relate several
//! operations or hold for every ledger.
use crate::block::{hash_text, spec_hash, Block};
use crate::chain::{chain_valid, linked_at, well_formed};
use crate::decimal::lemma_decimal_injective;
use crate::digest::sha256_upper_hex;
use vstd::prelude::*;

verus! {

/// The text that a record's digest is taken over, from its stored fields.
pub open spec fn input_text(b: Block) -> Seq<char> {
    hash_text(b.index as nat, b.timestamp as nat, b.data@, b.previous_hash@)
}

/// `b` is `a` with exactly one of the four digest inputs changed and the
/// stored digest kept.
pub open spec fn one_input_changed(a: Block, b: Block) -> bool {
    &&& b.hash@ == a.hash@
    &&& {
        ||| (b.index != a.index && b.timestamp == a.timestamp && b.data@ == a.data@
            && b.previous_hash@ == a.previous_hash@)
        ||| (b.index == a.index && b.timestamp != a.timestamp && b.data@ == a.data@
            && b.previous_hash@ == a.previous_hash@)
        ||| (b.index == a.index && b.timestamp == a.timestamp && b.data@ != a.data@
            && b.previous_hash@ == a.previous_hash@)
        ||| (b.index == a.index && b.timestamp == a.timestamp && b.data@ == a.data@
            && b.previous_hash@ != a.previous_hash@)
    }
}

/// The digest of a record depends on its index, timestamp, payload and
/// previous digest alone: records that agree on those four fields have the
/// same digest.
pub proof fn lemma_hash_deterministic(a: Block, b: Block)
    requires
        a.index == b.index,
        a.timestamp == b.timestamp,
        a.data@ == b.data@,
        a.previous_hash@ == b.previous_hash@,
    ensures
        a.computed_hash() == b.computed_hash(),
{
}

/// Field values whose digest texts coincide have the same digest, even where
/// the fields differ: the scheme joins the fields without separators, and
/// this collision is part of it.
pub proof fn lemma_same_text_same_hash(
    index1: nat,
    timestamp1: nat,
    data1: Seq<char>,
    previous_hash1: Seq<char>,
    index2: nat,
    timestamp2: nat,
    data2: Seq<char>,
    previous_hash2: Seq<char>,
)
    requires
        hash_text(index1, timestamp1, data1, previous_hash1) == hash_text(
            index2,
            timestamp2,
            data2,
            previous_hash2,
        ),
    ensures
        spec_hash(index1, timestamp1, data1, previous_hash1) == spec_hash(
            index2,
            timestamp2,
            data2,
            previous_hash2,
        ),
{
}

/// A ledger made by `new` and any number of `add_block` calls passes
/// validation; its records carry the indices 0, 1, 2, ... in order, and each
/// record after the first names its predecessor's digest.
pub proof fn lemma_well_formed_is_valid(c: Seq<Block>)
    requires
        well_formed(c),
    ensures
        chain_valid(c),
        forall|i: int| 0 <= i < c.len() ==> (#[trigger] c[i]).index == i,
        forall|i: int| 1 <= i < c.len() ==> (#[trigger] c[i]).previous_hash@ == c[i - 1].hash@,
{
    assert forall|i: int| 1 <= i < c.len() implies (#[trigger] c[i]).previous_hash@ == c[i
        - 1].hash@ by {
        assert(linked_at(c, i));
    }
}

proof fn lemma_cancel(a: Seq<char>, x: Seq<char>, y: Seq<char>, z: Seq<char>)
    requires
        a + x + z == a + y + z,
    ensures
        x == y,
{
    let s = a + x + z;
    let t = a + y + z;
    assert(x.len() == y.len()) by {
        assert(s.len() == t.len());
    }
    assert(x =~= s.subrange(a.len() as int, (a.len() + x.len()) as int));
    assert(y =~= t.subrange(a.len() as int, (a.len() + y.len()) as int));
}

/// Changing one digest input of a record changes the text that its digest
/// is taken over.
pub proof fn lemma_changed_input_changes_text(a: Block, b: Block)
    requires
        one_input_changed(a, b),
    ensures
        input_text(a) != input_text(b),
{
    let ia = crate::decimal::decimal(a.index as nat);
    let ib = crate::decimal::decimal(b.index as nat);
    let ta = crate::decimal::decimal(a.timestamp as nat);
    let tb = crate::decimal::decimal(b.timestamp as nat);
    let e = Seq::<char>::empty();
    if input_text(a) == input_text(b) {
        if b.index != a.index {
            assert(input_text(a) =~= e + ia + (ta + a.data@ + a.previous_hash@));
            assert(input_text(b) =~= e + ib + (ta + a.data@ + a.previous_hash@));
            lemma_cancel(e, ia, ib, ta + a.data@ + a.previous_hash@);
            lemma_decimal_injective(a.index as nat, b.index as nat);
        } else if b.timestamp != a.timestamp {
            assert(input_text(a) =~= ia + ta + (a.data@ + a.previous_hash@));
            assert(input_text(b) =~= ia + tb + (a.data@ + a.previous_hash@));
            lemma_cancel(ia, ta, tb, a.data@ + a.previous_hash@);
            lemma_decimal_injective(a.timestamp as nat, b.timestamp as nat);
        } else if b.data@ != a.data@ {
            lemma_cancel(ia + ta, a.data@, b.data@, a.previous_hash@);
        } else {
            assert(input_text(a) =~= (ia + ta + a.data@) + a.previous_hash@ + e);
            assert(input_text(b) =~= (ia + ta + a.data@) + b.previous_hash@ + e);
            lemma_cancel(ia + ta + a.data@, a.previous_hash@, b.previous_hash@, e);
        }
    }
}

/// Tampering with one field of a record after the first in a valid ledger,
/// keeping its stored digest: a changed previous digest always fails
/// validation; a changed index, timestamp or payload passes validation only
/// where two different digest texts have the same SHA-256 digest.
pub proof fn lemma_tamper_detected(c: Seq<Block>, i: int, b: Block)
    requires
        chain_valid(c),
        1 <= i < c.len(),
        one_input_changed(c[i], b),
    ensures
        b.previous_hash@ != c[i].previous_hash@ ==> !chain_valid(c.update(i, b)),
        chain_valid(c.update(i, b)) ==> input_text(b) != input_text(c[i]) && sha256_upper_hex(
            input_text(b),
        ) == sha256_upper_hex(input_text(c[i])),
{
    let t = c.update(i, b);
    lemma_changed_input_changes_text(c[i], b);
    assert(linked_at(c, i));
    if chain_valid(t) {
        assert(linked_at(t, i));
        assert(t[i] == b);
        assert(t[i - 1] == c[i - 1]);
    }
}

} // verus!
