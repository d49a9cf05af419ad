//! Everyday workloads: parsing, search, compression and small files.

use vstd::prelude::*;

use crate::models::BenchmarkProfile;

verus! {

/// How much larger the extended profile makes these workloads.
pub fn scale(profile: &BenchmarkProfile) -> (res: usize)
    ensures
        res == match *profile {
            BenchmarkProfile::Standard => 1usize,
            BenchmarkProfile::Extended => 3usize,
        },
{
    match profile {
        BenchmarkProfile::Standard => 1,
        BenchmarkProfile::Extended => 3,
    }
}

/// The byte at position `index` of the compression input.
pub open spec fn compression_byte(index: int) -> u8 {
    ((index * 17) % 251) as u8
}

/// The input of the compression workload: `size` bytes of a repeating
/// pattern.
pub fn compression_input(size: usize) -> (res: Vec<u8>)
    requires
        size <= usize::MAX / 17,
    ensures
        res@.len() == size,
        forall|i: int| 0 <= i < size ==> #[trigger] res@[i] == compression_byte(i),
{
    let mut data: Vec<u8> = Vec::new();
    let mut index: usize = 0;
    while index < size
        invariant
            index <= size,
            size <= usize::MAX / 17,
            data@.len() == index,
            forall|i: int| 0 <= i < index ==> #[trigger] data@[i] == compression_byte(i),
        decreases size - index,
    {
        let byte = ((index * 17) % 251) as u8;
        data.push(byte);
        index = index + 1;
    }
    data
}

} // verus!
