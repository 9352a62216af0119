use vstd::prelude::*;

verus! {

/// Longest key accepted in a check or a mutation.
pub const MAX_WRITE_KEY_SIZE_BYTES: usize = 2048;

/// Longest selector boundary accepted in a read; one more than a write key,
/// since boundaries may carry a trailing 0x00 or 0xff.
pub const MAX_READ_KEY_SIZE_BYTES: usize = 2049;

/// Longest value or enqueue payload.
pub const MAX_VALUE_SIZE_BYTES: usize = 65536;

/// Most ranges in one snapshot read.
pub const MAX_READ_RANGES: usize = 10;

/// Most entries over all ranges of one snapshot read.
pub const MAX_READ_ENTRIES: usize = 1000;

/// Most checks in one atomic write.
pub const MAX_CHECKS: usize = 100;

/// Most mutations and enqueues together in one atomic write.
pub const MAX_MUTATIONS: usize = 1000;

/// Most keys in one watch.
pub const MAX_WATCHED_KEYS: usize = 10;

/// Budget for keys, values and payloads of one atomic write.
pub const MAX_TOTAL_MUTATION_SIZE_BYTES: usize = 800 * 1024;

/// Budget for the mutation keys of one atomic write.
pub const MAX_TOTAL_KEY_SIZE_BYTES: usize = 80 * 1024;

} // verus!
