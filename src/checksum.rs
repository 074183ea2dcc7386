use vstd::prelude::*;

verus! {

/// Wrapping 8-bit sum of every byte of `data`.
pub open spec fn checksum_of(data: Seq<u8>) -> u8
    decreases data.len(),
{
    if data.len() == 0 {
        0
    } else {
        ((checksum_of(data.drop_last()) + data.last()) % 256) as u8
    }
}

/// Computes the wrapping 8-bit sum that closes every frame.
pub fn calculate_checksum(checksum_data: &[u8]) -> (r: u8)
    ensures
        r == checksum_of(checksum_data@),
{
    let mut acc: u8 = 0;
    let mut i: usize = 0;
    while i < checksum_data.len()
        invariant
            i <= checksum_data@.len(),
            acc == checksum_of(checksum_data@.subrange(0, i as int)),
        decreases checksum_data@.len() - i,
    {
        assert(checksum_data@.subrange(0, i + 1).drop_last() == checksum_data@.subrange(
            0,
            i as int,
        ));
        acc = acc.wrapping_add(checksum_data[i]);
        i += 1;
    }
    assert(checksum_data@.subrange(0, i as int) == checksum_data@);
    acc
}

} // verus!
