//! Graphics workloads: GPU compute, offscreen rendering and transfers.

use vstd::prelude::*;

use crate::models::BenchmarkProfile;

verus! {

/// How much larger the extended profile makes these workloads.
pub fn scale(profile: &BenchmarkProfile) -> (res: u64)
    ensures
        res == match *profile {
            BenchmarkProfile::Standard => 1u64,
            BenchmarkProfile::Extended => 2u64,
        },
{
    match profile {
        BenchmarkProfile::Standard => 1,
        BenchmarkProfile::Extended => 2,
    }
}

} // verus!
