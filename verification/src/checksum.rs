//! The frame checksum: the sum of the covered bytes, modulo 256.

use vstd::prelude::*;

verus! {

/// Sum of all bytes of `bytes`, as a mathematical integer.
pub open spec fn byte_sum(bytes: Seq<u8>) -> nat
    decreases bytes.len(),
{
    if bytes.len() == 0 {
        0
    } else {
        byte_sum(bytes.drop_last()) + bytes.last() as nat
    }
}

/// The checksum of `bytes`: their sum, reduced modulo 256.
pub open spec fn checksum_of(bytes: Seq<u8>) -> u8 {
    (byte_sum(bytes) % 256) as u8
}

/// Replacing one byte moves the sum by the difference of the two bytes.
pub proof fn lemma_byte_sum_update(bytes: Seq<u8>, index: int, value: u8)
    requires
        0 <= index < bytes.len(),
    ensures
        byte_sum(bytes.update(index, value)) + bytes[index] as nat == byte_sum(bytes)
            + value as nat,
    decreases bytes.len(),
{
    let changed = bytes.update(index, value);
    if index == bytes.len() - 1 {
        assert(changed.drop_last() =~= bytes.drop_last());
    } else {
        assert(changed.drop_last() =~= bytes.drop_last().update(index, value));
        lemma_byte_sum_update(bytes.drop_last(), index, value);
    }
}

/// A single changed byte always changes the checksum.
pub proof fn lemma_checksum_detects_change(bytes: Seq<u8>, index: int, value: u8)
    requires
        0 <= index < bytes.len(),
        value != bytes[index],
    ensures
        checksum_of(bytes.update(index, value)) != checksum_of(bytes),
{
    lemma_byte_sum_update(bytes, index, value);
}

/// Computes the checksum of `data` with wrapping 8-bit addition.
pub fn calculate_checksum(data: &[u8]) -> (sum: u8)
    ensures
        sum == checksum_of(data@),
{
    let mut sum: u8 = 0;
    let mut i: usize = 0;
    while i < data.len()
        invariant
            i <= data.len(),
            sum == checksum_of(data@.take(i as int)),
        decreases data.len() - i,
    {
        proof {
            let next = data@.take(i + 1);
            assert(next.drop_last() =~= data@.take(i as int));
            assert(next.last() == data@[i as int]);
        }
        sum = sum.wrapping_add(data[i]);
        i += 1;
    }
    proof {
        assert(data@.take(i as int) =~= data@);
    }
    sum
}

} // verus!
