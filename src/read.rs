use vstd::prelude::*;

use crate::cursor::{bounds_view, decode_selector_and_cursor, selector_bounds};
use crate::error::KvError;
use crate::limits::{MAX_READ_ENTRIES, MAX_READ_KEY_SIZE_BYTES, MAX_READ_RANGES, MAX_WATCHED_KEYS};
use crate::selector::{opt_bytes, resolve_selector, RawSelector};
use crate::write::check_read_key_size;

verus! {

/// One range of a snapshot read: keys from `start` (inclusive) to `end`
/// (exclusive), at most `limit` of them, in descending order when `reverse`.
#[derive(Debug, Clone, PartialEq, Eq)]
pub struct ReadRange {
    pub start: Vec<u8>,
    pub end: Vec<u8>,
    pub limit: u32,
    pub reverse: bool,
}

/// The text an optional string slice holds.
pub open spec fn opt_text(o: Option<&str>) -> Option<Seq<char>> {
    match o {
        Some(s) => Some(s@),
        None => None,
    }
}

/// The bounds a range request scans, or why it is refused.
pub open spec fn read_range_outcome(
    prefix: Option<Seq<u8>>,
    start: Option<Seq<u8>>,
    end: Option<Seq<u8>>,
    limit: u32,
    reverse: bool,
    cursor: Option<Seq<char>>,
) -> Result<(Seq<u8>, Seq<u8>), KvError> {
    match resolve_selector(prefix, start, end) {
        Err(e) => Err(e),
        Ok(sel) => match selector_bounds(sel, reverse, cursor) {
            Err(e) => Err(e),
            Ok((s, e)) => if s.len() > MAX_READ_KEY_SIZE_BYTES || e.len()
                > MAX_READ_KEY_SIZE_BYTES {
                Err(KvError::ReadKeyTooLarge)
            } else if limit == 0 {
                Err(KvError::ZeroLimit)
            } else {
                Ok((s, e))
            },
        },
    }
}

/// Turns a range request (selector keys, limit, direction and optional cursor) into
/// the concrete range the backend scans.
pub fn read_range(
    prefix: Option<Vec<u8>>,
    start: Option<Vec<u8>>,
    end: Option<Vec<u8>>,
    limit: u32,
    reverse: bool,
    cursor: Option<&str>,
) -> (r: Result<ReadRange, KvError>)
    ensures
        match read_range_outcome(
            opt_bytes(prefix),
            opt_bytes(start),
            opt_bytes(end),
            limit,
            reverse,
            opt_text(cursor),
        ) {
            Err(e) => r == Err::<ReadRange, KvError>(e),
            Ok((s, e)) => (r matches Ok(range) && range.start@ == s && range.end@ == e
                && range.limit == limit && range.reverse == reverse),
        },
{
    let selector = match RawSelector::from_tuple(prefix, start, end) {
        Ok(s) => s,
        Err(e) => return Err(e),
    };
    let (start, end) = match decode_selector_and_cursor(&selector, reverse, cursor) {
        Ok(b) => b,
        Err(e) => return Err(e),
    };
    proof {
        assert(opt_text(cursor) == match cursor {
            Some(c) => Some(c@),
            None => None::<Seq<char>>,
        });
    }
    if check_read_key_size(start.as_slice()).is_err() || check_read_key_size(end.as_slice()).is_err() {
        return Err(KvError::ReadKeyTooLarge);
    }
    if limit == 0 {
        return Err(KvError::ZeroLimit);
    }
    Ok(ReadRange { start, end, limit, reverse })
}

/// Sum of the limits of `ranges`.
pub open spec fn limit_total(ranges: Seq<ReadRange>) -> nat
    decreases ranges.len(),
{
    if ranges.len() == 0 {
        0
    } else {
        limit_total(ranges.drop_last()) + ranges.last().limit as nat
    }
}

/// Refuses a snapshot read of too many ranges or of too many entries in all.
pub fn check_snapshot_read(ranges: &Vec<ReadRange>) -> (r: Result<(), KvError>)
    ensures
        ranges@.len() > MAX_READ_RANGES ==> r == Err::<(), KvError>(KvError::TooManyRanges),
        ranges@.len() <= MAX_READ_RANGES && limit_total(ranges@) > MAX_READ_ENTRIES ==> r == Err::<
            (),
            KvError,
        >(KvError::TooManyEntries),
        ranges@.len() <= MAX_READ_RANGES && limit_total(ranges@) <= MAX_READ_ENTRIES ==> r is Ok,
{
    if ranges.len() > MAX_READ_RANGES {
        return Err(KvError::TooManyRanges);
    }
    let mut total_entries: u64 = 0;
    let mut i: usize = 0;
    while i < ranges.len()
        invariant
            i <= ranges.len(),
            ranges.len() <= MAX_READ_RANGES,
            total_entries == limit_total(ranges@.subrange(0, i as int)),
            total_entries <= 0xffff_ffff * i,
        decreases ranges.len() - i,
    {
        proof {
            assert(ranges@.subrange(0, i + 1).drop_last() =~= ranges@.subrange(0, i as int));
        }
        total_entries = total_entries + ranges[i].limit as u64;
        i = i + 1;
    }
    proof {
        assert(ranges@.subrange(0, ranges.len() as int) =~= ranges@);
    }
    if total_entries > MAX_READ_ENTRIES as u64 {
        return Err(KvError::TooManyEntries);
    }
    Ok(())
}

/// Refuses a watch of too many keys, or of a key longer than the read limit.
pub fn check_watch_keys(keys: &Vec<Vec<u8>>) -> (r: Result<(), KvError>)
    ensures
        keys@.len() > MAX_WATCHED_KEYS ==> r == Err::<(), KvError>(KvError::TooManyWatchedKeys),
        keys@.len() <= MAX_WATCHED_KEYS ==> (r is Ok <==> forall|i: int|
            0 <= i < keys@.len() ==> (#[trigger] keys@[i])@.len() <= MAX_READ_KEY_SIZE_BYTES),
        keys@.len() <= MAX_WATCHED_KEYS && r is Err ==> r == Err::<(), KvError>(
            KvError::ReadKeyTooLarge,
        ),
{
    if keys.len() > MAX_WATCHED_KEYS {
        return Err(KvError::TooManyWatchedKeys);
    }
    let mut i: usize = 0;
    while i < keys.len()
        invariant
            i <= keys.len(),
            keys.len() <= MAX_WATCHED_KEYS,
            forall|j: int| 0 <= j < i ==> (#[trigger] keys@[j])@.len() <= MAX_READ_KEY_SIZE_BYTES,
        decreases keys.len() - i,
    {
        if check_read_key_size(keys[i].as_slice()).is_err() {
            return Err(KvError::ReadKeyTooLarge);
        }
        i = i + 1;
    }
    Ok(())
}

} // verus!
