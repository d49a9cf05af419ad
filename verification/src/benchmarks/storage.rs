//! Storage workloads: sequential and random file I/O.

use vstd::prelude::*;

use crate::models::BenchmarkProfile;

verus! {

/// How much larger the extended profile makes these workloads.
pub fn scale(profile: &BenchmarkProfile) -> (res: usize)
    ensures
        res == match *profile {
            BenchmarkProfile::Standard => 1usize,
            BenchmarkProfile::Extended => 4usize,
        },
{
    match profile {
        BenchmarkProfile::Standard => 1,
        BenchmarkProfile::Extended => 4,
    }
}

/// The number of whole blocks in the file, or 1 when there is none.
pub open spec fn block_count(size: int, block: int) -> int {
    if size / block >= 1 {
        size / block
    } else {
        1
    }
}

/// The file offset of random operation `i`: block number `i * 7919` modulo
/// the number of blocks.
pub open spec fn random_offset_of(i: int, size: int, block: int) -> int {
    ((i * 7919) % block_count(size, block)) * block
}

/// Where random operation `i` reads or writes its block.
pub fn random_offset(i: usize, size: usize, block: usize) -> (res: usize)
    requires
        block > 0,
        i <= usize::MAX / 7919,
        size <= usize::MAX - block,
    ensures
        res == random_offset_of(i as int, size as int, block as int),
        block <= size ==> res + block <= size,
        res % block == 0,
        res <= size,
{
    let blocks = if size / block >= 1 {
        size / block
    } else {
        1
    };
    let slot = (i * 7919) % blocks;
    assert(slot * block + block <= blocks * block + block) by (nonlinear_arith)
        requires
            slot < blocks,
    ;
    assert(blocks * block <= size || blocks == 1) by (nonlinear_arith)
        requires
            blocks == size / block || blocks == 1,
            block > 0,
    ;
    assert(block <= size ==> slot * block + block <= size) by (nonlinear_arith)
        requires
            slot < blocks,
            block > 0,
            blocks == size / block || (blocks == 1 && size / block < 1),
    ;
    assert(((slot as int) * (block as int)) % (block as int) == 0) by (nonlinear_arith)
        requires
            block > 0,
    ;
    assert(slot * block <= size) by (nonlinear_arith)
        requires
            slot < blocks,
            block > 0,
            blocks == size / block || (blocks == 1 && slot == 0),
    ;
    slot * block
}

/// The byte that random write `i` fills its block with.
pub fn random_fill_byte(i: usize) -> (res: u8)
    ensures
        res == (i % 255) + 1,
{
    ((i % 255) + 1) as u8
}

/// Whether `available` bytes of free space leave room for the sequential
/// workload's file of `size` bytes, which needs twice its size free.
pub fn has_room_for(available: u64, size: u64) -> (res: bool)
    ensures
        res == (available >= 2 * size),
{
    available / 2 >= size
}

/// The number of leading bytes of the file that the sequential workload
/// fingerprints.
pub const DIGEST_PREFIX: usize = 64;

/// Adds to `digest` the first `count` bytes of `chunk` that still fit
/// within the first 64 bytes read.
pub fn keep_digest_prefix(digest: &mut Vec<u8>, chunk: &[u8], count: usize)
    requires
        count <= chunk@.len(),
    ensures
        final(digest)@ == if old(digest)@.len() < DIGEST_PREFIX {
            old(digest)@ + chunk@.subrange(
                0,
                if count < DIGEST_PREFIX - old(digest)@.len() {
                    count as int
                } else {
                    DIGEST_PREFIX - old(digest)@.len()
                },
            )
        } else {
            old(digest)@
        },
{
    if digest.len() < DIGEST_PREFIX {
        let room = DIGEST_PREFIX - digest.len();
        let take = if count < room {
            count
        } else {
            room
        };
        let mut j: usize = 0;
        let ghost start = digest@;
        while j < take
            invariant
                j <= take,
                take <= count,
                count <= chunk@.len(),
                digest@ == start + chunk@.subrange(0, j as int),
            decreases take - j,
        {
            digest.push(chunk[j]);
            j = j + 1;
            assert(digest@ =~= start + chunk@.subrange(0, j as int));
        }
    }
}

/// Reading a file chunk by chunk into `keep_digest_prefix` keeps exactly
/// its first 64 bytes (or all of it, when shorter).
pub proof fn lemma_digest_is_prefix(read: Seq<u8>, chunk: Seq<u8>, digest: Seq<u8>, next: Seq<u8>)
    requires
        digest == read.take(if read.len() < 64 { read.len() as int } else { 64 }),
        next == if digest.len() < 64 {
            digest + chunk.subrange(
                0,
                if chunk.len() < 64 - digest.len() {
                    chunk.len() as int
                } else {
                    64 - digest.len()
                },
            )
        } else {
            digest
        },
    ensures
        next == (read + chunk).take(
            if read.len() + chunk.len() < 64 {
                (read.len() + chunk.len()) as int
            } else {
                64
            },
        ),
{
    let both = read + chunk;
    if digest.len() < 64 {
        assert(next =~= both.take(
            if read.len() + chunk.len() < 64 {
                (read.len() + chunk.len()) as int
            } else {
                64
            },
        ));
    } else {
        assert(next =~= both.take(64));
    }
}

/// Folds the first byte of read operation `i` into the 32-byte fingerprint
/// of the random workload.
pub fn mix_read_byte(digest: &mut Vec<u8>, i: usize, byte: u8)
    requires
        old(digest)@.len() == 32,
    ensures
        final(digest)@ == old(digest)@.update((i % 32) as int, old(digest)@[(i % 32) as int] ^ byte),
{
    let k = i % 32;
    let mixed = digest[k] ^ byte;
    digest.set(k, mixed);
}

} // verus!
