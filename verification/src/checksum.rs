//! The exclusive-or checksum of a packet.

use vstd::prelude::*;

verus! {

/// Exclusive-or of `init` with every byte of `bytes`, taken in order.
pub open spec fn xor_fold(init: u8, bytes: Seq<u8>) -> u8
    decreases bytes.len(),
{
    if bytes.len() == 0 {
        init
    } else {
        xor_fold(init, bytes.drop_last()) ^ bytes.last()
    }
}

/// The byte that the wire carries for a payload's length.
pub open spec fn length_byte(payload: Seq<u8>) -> u8 {
    (payload.len() % 256) as u8
}

/// Checksum of a packet: the fold of its length byte, its command and its payload.
pub open spec fn packet_checksum(cmd: u8, payload: Seq<u8>) -> u8 {
    xor_fold(length_byte(payload) ^ cmd, payload)
}

/// Folding one more byte is one more exclusive-or.
pub proof fn lemma_xor_fold_push(init: u8, bytes: Seq<u8>, b: u8)
    ensures
        xor_fold(init, bytes.push(b)) == xor_fold(init, bytes) ^ b,
{
    assert(bytes.push(b).drop_last() =~= bytes);
}

/// Taking a byte out of the sequence and folding it last gives the same fold.
pub proof fn lemma_xor_fold_remove(init: u8, bytes: Seq<u8>, i: int)
    requires
        0 <= i < bytes.len(),
    ensures
        xor_fold(init, bytes) == xor_fold(init, bytes.remove(i)) ^ bytes[i],
    decreases bytes.len(),
{
    if i == bytes.len() - 1 {
        assert(bytes.remove(i) =~= bytes.drop_last());
    } else {
        let rest = bytes.drop_last();
        lemma_xor_fold_remove(init, rest, i);
        assert(bytes.remove(i).drop_last() =~= rest.remove(i));
        assert(bytes.remove(i).last() == bytes.last());
        let a: u8 = xor_fold(init, rest.remove(i));
        let x: u8 = bytes[i];
        let y: u8 = bytes.last();
        assert((a ^ x) ^ y == (a ^ y) ^ x) by (bit_vector);
    }
}

/// The fold does not depend on the order of the bytes: two sequences that hold
/// the same bytes, each as often as the other, fold to the same value.
pub proof fn lemma_xor_fold_permutation(init: u8, a: Seq<u8>, b: Seq<u8>)
    requires
        a.to_multiset() == b.to_multiset(),
    ensures
        xor_fold(init, a) == xor_fold(init, b),
    decreases a.len(),
{
    vstd::seq_lib::to_multiset_len(a);
    vstd::seq_lib::to_multiset_len(b);
    if a.len() > 0 {
        let x: u8 = a.last();
        let last: int = a.len() - 1;
        assert(a[last] == x);
        vstd::seq_lib::to_multiset_contains(a, x);
        vstd::seq_lib::to_multiset_contains(b, x);
        let j: int = choose|j: int| 0 <= j < b.len() && b[j] == x;
        assert(a.remove(last) =~= a.drop_last());
        vstd::seq_lib::to_multiset_remove(a, last);
        vstd::seq_lib::to_multiset_remove(b, j);
        lemma_xor_fold_permutation(init, a.drop_last(), b.remove(j));
        lemma_xor_fold_remove(init, b, j);
    }
}

/// The checksum of a packet is the same for every ordering of its payload bytes.
pub proof fn lemma_checksum_permutation(cmd: u8, a: Seq<u8>, b: Seq<u8>)
    requires
        a.to_multiset() == b.to_multiset(),
    ensures
        packet_checksum(cmd, a) == packet_checksum(cmd, b),
{
    vstd::seq_lib::to_multiset_len(a);
    vstd::seq_lib::to_multiset_len(b);
    lemma_xor_fold_permutation(length_byte(a) ^ cmd, a, b);
}

} // verus!
