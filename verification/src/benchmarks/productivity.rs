//! Productivity workloads: spreadsheets, sorting, documents and archives.

use vstd::prelude::*;

use crate::models::BenchmarkProfile;

verus! {

/// How much larger the extended profile makes these workloads.
pub fn scale(profile: &BenchmarkProfile) -> (res: usize)
    ensures
        res == match *profile {
            BenchmarkProfile::Standard => 1usize,
            BenchmarkProfile::Extended => 3usize,
        },
{
    match profile {
        BenchmarkProfile::Standard => 1,
        BenchmarkProfile::Extended => 3,
    }
}

/// The byte at position `offset` of file `file` of the archive input.
pub open spec fn archive_byte(file: int, offset: int) -> u8 {
    ((offset + file * 13) % 255) as u8
}

/// The input of the archive workload: `files` files of `file_size` bytes.
pub fn archive_blobs(files: usize, file_size: usize) -> (res: Vec<Vec<u8>>)
    requires
        files * 13 + file_size <= usize::MAX,
    ensures
        res@.len() == files,
        forall|f: int| 0 <= f < files ==> (#[trigger] res@[f])@.len() == file_size,
        forall|f: int, o: int|
            0 <= f < files && 0 <= o < file_size ==> #[trigger] res@[f]@[o] == archive_byte(f, o),
{
    let mut blobs: Vec<Vec<u8>> = Vec::new();
    let mut i: usize = 0;
    while i < files
        invariant
            i <= files,
            files * 13 + file_size <= usize::MAX,
            blobs@.len() == i,
            forall|f: int| 0 <= f < i ==> (#[trigger] blobs@[f])@.len() == file_size,
            forall|f: int, o: int|
                0 <= f < i && 0 <= o < file_size ==> #[trigger] blobs@[f]@[o] == archive_byte(f, o),
        decreases files - i,
    {
        let mut blob: Vec<u8> = Vec::new();
        let mut offset: usize = 0;
        assert(i * 13 <= files * 13) by (nonlinear_arith)
            requires
                i < files,
        ;
        while offset < file_size
            invariant
                i < files,
                files * 13 + file_size <= usize::MAX,
                i * 13 <= files * 13,
                offset <= file_size,
                blob@.len() == offset,
                forall|o: int| 0 <= o < offset ==> #[trigger] blob@[o] == archive_byte(i as int, o),
            decreases file_size - offset,
        {
            blob.push(((offset + i * 13) % 255) as u8);
            offset = offset + 1;
        }
        blobs.push(blob);
        i = i + 1;
    }
    blobs
}

} // verus!
