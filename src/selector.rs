use vstd::prelude::*;

use crate::bytes::{
    bytes_le, bytes_lt, common_len, common_prefix_for_bytes, compare_bytes, has_prefix, push_byte,
    starts_with,
};
use crate::error::KvError;

verus! {

/// A resolved description of the byte range a read scans.
pub enum RawSelector {
    /// Every key under `prefix`, optionally narrowed by an explicit start or end.
    Prefixed { prefix: Vec<u8>, start: Option<Vec<u8>>, end: Option<Vec<u8>> },
    /// The keys from `start` (inclusive) to `end` (exclusive).
    Range { start: Vec<u8>, end: Vec<u8> },
}

/// The mathematical value of a `RawSelector`.
#[allow(inconsistent_fields)]
pub enum SelectorModel {
    Prefixed { prefix: Seq<u8>, start: Option<Seq<u8>>, end: Option<Seq<u8>> },
    Range { start: Seq<u8>, end: Seq<u8> },
}

/// The bytes an optional byte vector holds.
pub open spec fn opt_bytes(o: Option<Vec<u8>>) -> Option<Seq<u8>> {
    match o {
        Some(v) => Some(v@),
        None => None,
    }
}

impl SelectorModel {
    /// The explicit start bound, if any.
    pub open spec fn start(self) -> Option<Seq<u8>> {
        match self {
            SelectorModel::Prefixed { start, .. } => start,
            SelectorModel::Range { start, .. } => Some(start),
        }
    }

    /// The explicit end bound, if any.
    pub open spec fn end(self) -> Option<Seq<u8>> {
        match self {
            SelectorModel::Prefixed { end, .. } => end,
            SelectorModel::Range { end, .. } => Some(end),
        }
    }

    /// The bytes every key of the selector shares; cursors are relative to it.
    pub open spec fn common_prefix(self) -> Seq<u8> {
        match self {
            SelectorModel::Prefixed { prefix, .. } => prefix,
            SelectorModel::Range { start, end } => start.subrange(0, common_len(start, end) as int),
        }
    }

    /// First key of the scan (inclusive).
    pub open spec fn range_start_key(self) -> Seq<u8> {
        match self {
            SelectorModel::Prefixed { prefix, start, .. } => match start {
                Some(s) => s,
                None => prefix.push(0u8),
            },
            SelectorModel::Range { start, .. } => start,
        }
    }

    /// Key the scan stops before (exclusive).
    pub open spec fn range_end_key(self) -> Seq<u8> {
        match self {
            SelectorModel::Prefixed { prefix, end, .. } => match end {
                Some(e) => e,
                None => prefix.push(0xffu8),
            },
            SelectorModel::Range { end, .. } => end,
        }
    }

    /// Explicit bounds lie inside the prefix's keyspace, and a range does not run backwards.
    pub open spec fn wf(self) -> bool {
        match self {
            SelectorModel::Prefixed { prefix, start, end } => (match start {
                Some(s) => starts_with(s, prefix) && s.len() > prefix.len(),
                None => true,
            }) && (match end {
                Some(e) => starts_with(e, prefix) && e.len() > prefix.len(),
                None => true,
            }),
            SelectorModel::Range { start, end } => bytes_le(start, end),
        }
    }
}

/// The selector that an optional prefix, start and end name, or why they name none.
pub open spec fn resolve_selector(
    prefix: Option<Seq<u8>>,
    start: Option<Seq<u8>>,
    end: Option<Seq<u8>>,
) -> Result<SelectorModel, KvError> {
    match (prefix, start, end) {
        (Some(p), None, None) => Ok(SelectorModel::Prefixed { prefix: p, start: None, end: None }),
        (Some(p), Some(s), None) => if starts_with(s, p) && s.len() != p.len() {
            Ok(SelectorModel::Prefixed { prefix: p, start: Some(s), end: None })
        } else {
            Err(KvError::StartNotInPrefix)
        },
        (Some(p), None, Some(e)) => if starts_with(e, p) && e.len() != p.len() {
            Ok(SelectorModel::Prefixed { prefix: p, start: None, end: Some(e) })
        } else {
            Err(KvError::EndNotInPrefix)
        },
        (None, Some(s), Some(e)) => if bytes_lt(e, s) {
            Err(KvError::StartAfterEnd)
        } else {
            Ok(SelectorModel::Range { start: s, end: e })
        },
        (None, Some(s), None) => Ok(SelectorModel::Range { start: s, end: s.push(0u8) }),
        _ => Err(KvError::InvalidRange),
    }
}

impl View for RawSelector {
    type V = SelectorModel;

    open spec fn view(&self) -> SelectorModel {
        match self {
            RawSelector::Prefixed { prefix, start, end } => SelectorModel::Prefixed {
                prefix: prefix@,
                start: opt_bytes(*start),
                end: opt_bytes(*end),
            },
            RawSelector::Range { start, end } => SelectorModel::Range { start: start@, end: end@ },
        }
    }
}

impl RawSelector {
    /// Resolves encoded prefix, start and end keys into a selector.
    pub fn from_tuple(prefix: Option<Vec<u8>>, start: Option<Vec<u8>>, end: Option<Vec<u8>>) -> (r:
        Result<RawSelector, KvError>)
        ensures
            match r {
                Ok(sel) => resolve_selector(opt_bytes(prefix), opt_bytes(start), opt_bytes(end))
                    == Ok::<SelectorModel, KvError>(sel@),
                Err(e) => resolve_selector(opt_bytes(prefix), opt_bytes(start), opt_bytes(end))
                    == Err::<SelectorModel, KvError>(e),
            },
            r is Ok ==> r->Ok_0@.wf(),
    {
        match (prefix, start, end) {
            (Some(prefix), None, None) => Ok(RawSelector::Prefixed { prefix, start: None, end: None }),
            (Some(prefix), Some(start), None) => {
                if !has_prefix(start.as_slice(), prefix.as_slice()) || start.len() == prefix.len() {
                    return Err(KvError::StartNotInPrefix);
                }
                Ok(RawSelector::Prefixed { prefix, start: Some(start), end: None })
            },
            (Some(prefix), None, Some(end)) => {
                if !has_prefix(end.as_slice(), prefix.as_slice()) || end.len() == prefix.len() {
                    return Err(KvError::EndNotInPrefix);
                }
                Ok(RawSelector::Prefixed { prefix, start: None, end: Some(end) })
            },
            (None, Some(start), Some(end)) => {
                if compare_bytes(start.as_slice(), end.as_slice()) == 1 {
                    return Err(KvError::StartAfterEnd);
                }
                proof {
                    crate::bytes::lemma_lt_trichotomy(start@, end@);
                }
                Ok(RawSelector::Range { start, end })
            },
            (None, Some(start), None) => {
                let end = push_byte(start.as_slice(), 0u8);
                proof {
                    crate::bytes::lemma_lt_extension(start@, seq![0u8]);
                    assert(start@ + seq![0u8] =~= start@.push(0u8));
                }
                Ok(RawSelector::Range { start, end })
            },
            _ => Err(KvError::InvalidRange),
        }
    }

    /// The explicit start bound, if any.
    pub fn start(&self) -> (r: Option<&Vec<u8>>)
        ensures
            match r {
                Some(v) => self@.start() == Some(v@),
                None => self@.start() is None,
            },
    {
        match self {
            RawSelector::Prefixed { start, .. } => match start {
                Some(s) => Some(s),
                None => None,
            },
            RawSelector::Range { start, .. } => Some(start),
        }
    }

    /// The explicit end bound, if any.
    pub fn end(&self) -> (r: Option<&Vec<u8>>)
        ensures
            match r {
                Some(v) => self@.end() == Some(v@),
                None => self@.end() is None,
            },
    {
        match self {
            RawSelector::Prefixed { end, .. } => match end {
                Some(e) => Some(e),
                None => None,
            },
            RawSelector::Range { end, .. } => Some(end),
        }
    }

    /// The bytes every key of the selector shares.
    pub fn common_prefix(&self) -> (r: Vec<u8>)
        ensures
            r@ == self@.common_prefix(),
    {
        match self {
            RawSelector::Prefixed { prefix, .. } => prefix.clone(),
            RawSelector::Range { start, end } => common_prefix_for_bytes(
                start.as_slice(),
                end.as_slice(),
            ),
        }
    }

    /// First key of the scan (inclusive).
    pub fn range_start_key(&self) -> (r: Vec<u8>)
        ensures
            r@ == self@.range_start_key(),
    {
        match self {
            RawSelector::Prefixed { start: Some(start), .. } => start.clone(),
            RawSelector::Range { start, .. } => start.clone(),
            RawSelector::Prefixed { prefix, .. } => push_byte(prefix.as_slice(), 0u8),
        }
    }

    /// Key the scan stops before (exclusive).
    pub fn range_end_key(&self) -> (r: Vec<u8>)
        ensures
            r@ == self@.range_end_key(),
    {
        match self {
            RawSelector::Prefixed { end: Some(end), .. } => end.clone(),
            RawSelector::Range { end, .. } => end.clone(),
            RawSelector::Prefixed { prefix, .. } => push_byte(prefix.as_slice(), 0xffu8),
        }
    }
}

/// Only the five listed shapes resolve: no keys at all, an end alone, or prefix,
/// start and end together name no selector.
pub proof fn lemma_unlisted_combinations_invalid(
    prefix: Option<Seq<u8>>,
    start: Option<Seq<u8>>,
    end: Option<Seq<u8>>,
)
    requires
        (prefix is None && start is None) || (prefix is Some && start is Some && end is Some),
    ensures
        resolve_selector(prefix, start, end) == Err::<SelectorModel, KvError>(KvError::InvalidRange),
{
}

} // verus!
