use vstd::prelude::*;

use base64::Engine;

use crate::bytes::{
    bytes_le, bytes_lt, compare_bytes, concat_bytes, has_prefix, lemma_lt_extension,
    lemma_lt_transitive, lemma_lt_trichotomy, lemma_prefix_between, push_byte, slice_suffix,
    starts_with,
};
use crate::error::KvError;
use crate::selector::{opt_bytes, RawSelector, SelectorModel};

verus! {

/// The text that padded URL-safe base64 encodes a byte string to.
pub uninterp spec fn base64_url_of(b: Seq<u8>) -> Seq<char>;

/// The bytes that padded URL-safe base64 decodes a text to, if it is a valid encoding.
pub uninterp spec fn base64_url_decoded(s: Seq<char>) -> Option<Seq<u8>>;

/// Relies on base64's `URL_SAFE` engine `encode`: padded URL-safe base64 of the bytes.
#[verifier::external_body]
fn base64_url_encode(b: &[u8]) -> (r: String)
    ensures
        r@ == base64_url_of(b@),
{
    base64::engine::general_purpose::URL_SAFE.encode(b)
}

/// Relies on base64's `URL_SAFE` engine `decode`: the encoding of a byte string
/// decodes back to that byte string; any other text decodes to something or fails.
#[verifier::external_body]
fn base64_url_decode(s: &str) -> (r: Option<Vec<u8>>)
    ensures
        opt_bytes(r) == base64_url_decoded(s@),
        forall|b: Seq<u8>| #[trigger] base64_url_of(b) == s@ ==> opt_bytes(r) == Some(b),
{
    base64::engine::general_purpose::URL_SAFE.decode(s).ok()
}

/// The bytes of `k` after the selector's common prefix.
pub open spec fn cursor_suffix(sel: SelectorModel, k: Seq<u8>) -> Seq<u8> {
    k.subrange(sel.common_prefix().len() as int, k.len() as int)
}

/// First key of a scan resumed after (or, in reverse, before) the key `common_prefix ++ suffix`.
pub open spec fn cursor_first(sel: SelectorModel, reverse: bool, suffix: Seq<u8>) -> Seq<u8> {
    if reverse {
        sel.range_start_key()
    } else {
        (sel.common_prefix() + suffix).push(0u8)
    }
}

/// Key a resumed scan stops before.
pub open spec fn cursor_last(sel: SelectorModel, reverse: bool, suffix: Seq<u8>) -> Seq<u8> {
    if reverse {
        sel.common_prefix() + suffix
    } else {
        sel.range_end_key()
    }
}

/// The bounds of a scan resumed from a decoded cursor, or why they escape the selector.
pub open spec fn cursor_range(sel: SelectorModel, reverse: bool, suffix: Seq<u8>) -> Result<
    (Seq<u8>, Seq<u8>),
    KvError,
> {
    let first = cursor_first(sel, reverse, suffix);
    let last = cursor_last(sel, reverse, suffix);
    if sel.start() matches Some(s) && bytes_lt(first, s) {
        Err(KvError::CursorOutOfBounds)
    } else if sel.end() matches Some(e) && bytes_lt(e, last) {
        Err(KvError::CursorOutOfBounds)
    } else {
        Ok((first, last))
    }
}

/// The bounds of a scan of `sel` in the given direction, resumed from an optional cursor text.
pub open spec fn selector_bounds(sel: SelectorModel, reverse: bool, cursor: Option<Seq<char>>) -> Result<
    (Seq<u8>, Seq<u8>),
    KvError,
> {
    match cursor {
        None => Ok((sel.range_start_key(), sel.range_end_key())),
        Some(c) => match base64_url_decoded(c) {
            None => Err(KvError::InvalidCursor),
            Some(suffix) => cursor_range(sel, reverse, suffix),
        },
    }
}

/// The bytes a pair of byte vectors holds, or the error.
pub open spec fn bounds_view(r: Result<(Vec<u8>, Vec<u8>), KvError>) -> Result<
    (Seq<u8>, Seq<u8>),
    KvError,
> {
    match r {
        Ok((a, b)) => Ok((a@, b@)),
        Err(e) => Err(e),
    }
}

/// The cursor that resumes a scan of `selector` next to `boundary_key`.
pub fn encode_cursor(selector: &RawSelector, boundary_key: &[u8]) -> (r: Result<String, KvError>)
    ensures
        r is Ok <==> starts_with(boundary_key@, selector@.common_prefix()),
        r is Err ==> r == Err::<String, KvError>(KvError::InvalidBoundaryKey),
        r matches Ok(s) ==> s@ == base64_url_of(cursor_suffix(selector@, boundary_key@)),
{
    let common_prefix = selector.common_prefix();
    if !has_prefix(boundary_key, common_prefix.as_slice()) {
        return Err(KvError::InvalidBoundaryKey);
    }
    let suffix = slice_suffix(boundary_key, common_prefix.len());
    Ok(base64_url_encode(suffix.as_slice()))
}

/// The bounds of a scan resumed from an already decoded cursor suffix.
pub fn apply_cursor(selector: &RawSelector, reverse: bool, suffix: &[u8]) -> (r: Result<
    (Vec<u8>, Vec<u8>),
    KvError,
>)
    ensures
        bounds_view(r) == cursor_range(selector@, reverse, suffix@),
{
    let common_prefix = selector.common_prefix();
    let boundary = concat_bytes(common_prefix.as_slice(), suffix);
    let first_key: Vec<u8>;
    let last_key: Vec<u8>;
    if reverse {
        first_key = selector.range_start_key();
        last_key = boundary;
    } else {
        first_key = push_byte(boundary.as_slice(), 0u8);
        last_key = selector.range_end_key();
    }
    if let Some(start) = selector.start() {
        if compare_bytes(first_key.as_slice(), start.as_slice()) == -1 {
            return Err(KvError::CursorOutOfBounds);
        }
    }
    if let Some(end) = selector.end() {
        if compare_bytes(last_key.as_slice(), end.as_slice()) == 1 {
            return Err(KvError::CursorOutOfBounds);
        }
    }
    Ok((first_key, last_key))
}

/// The bounds of a scan of `selector`, resumed from `cursor` when one is given.
pub fn decode_selector_and_cursor(selector: &RawSelector, reverse: bool, cursor: Option<&str>) -> (r:
    Result<(Vec<u8>, Vec<u8>), KvError>)
    ensures
        bounds_view(r) == selector_bounds(
            selector@,
            reverse,
            match cursor {
                Some(c) => Some(c@),
                None => None,
            },
        ),
{
    match cursor {
        None => Ok((selector.range_start_key(), selector.range_end_key())),
        Some(c) => match base64_url_decode(c) {
            None => Err(KvError::InvalidCursor),
            Some(suffix) => apply_cursor(selector, reverse, suffix.as_slice()),
        },
    }
}

/// Resuming from the cursor of a key inside a selector's bounds is accepted and
/// scans strictly past that key: forward, every key from the new start sorts after
/// it; backward, the new end is the key itself, which the scan excludes.
pub proof fn lemma_cursor_round_trip(sel: SelectorModel, reverse: bool, k: Seq<u8>)
    requires
        sel.wf(),
        bytes_le(sel.range_start_key(), k),
        bytes_lt(k, sel.range_end_key()),
    ensures
        starts_with(k, sel.common_prefix()),
        cursor_range(sel, reverse, cursor_suffix(sel, k)) matches Ok((first, last)) && (if reverse {
            first == sel.range_start_key() && last == k
        } else {
            first == k.push(0u8) && last == sel.range_end_key() && forall|x: Seq<u8>|
                bytes_le(first, x) ==> #[trigger] bytes_lt(k, x)
        }),
{
    let cp = sel.common_prefix();
    let lo = sel.range_start_key();
    let hi = sel.range_end_key();
    match sel {
        SelectorModel::Prefixed { prefix, start, end } => {
            if start is None {
                assert(lo.subrange(0, prefix.len() as int) =~= prefix);
            }
            if end is None {
                assert(hi.subrange(0, prefix.len() as int) =~= prefix);
            }
        },
        SelectorModel::Range { start, end } => {
            crate::bytes::lemma_common_len(start, end);
            assert(end.subrange(0, cp.len() as int) =~= cp);
        },
    }
    lemma_prefix_between(lo, k, hi, cp);
    let suffix = cursor_suffix(sel, k);
    assert(cp + suffix =~= k);
    lemma_lt_extension(k, seq![0u8]);
    assert(k + seq![0u8] =~= k.push(0u8));
    lemma_lt_trichotomy(lo, lo);
    lemma_lt_trichotomy(hi, hi);
    lemma_lt_trichotomy(k, hi);
    lemma_lt_transitive(lo, k, k.push(0u8));
    lemma_lt_trichotomy(lo, k.push(0u8));
    if !reverse {
        assert forall|x: Seq<u8>| bytes_le(k.push(0u8), x) implies #[trigger] bytes_lt(k, x) by {
            lemma_lt_transitive(k, k.push(0u8), x);
        }
    }
}

/// A cursor whose resumed bounds leave the selector's explicit start or end is refused.
pub proof fn lemma_cursor_tampering(sel: SelectorModel, reverse: bool, suffix: Seq<u8>)
    requires
        (sel.start() matches Some(s) && bytes_lt(cursor_first(sel, reverse, suffix), s)) || (
        sel.end() matches Some(e) && bytes_lt(e, cursor_last(sel, reverse, suffix))),
    ensures
        cursor_range(sel, reverse, suffix) == Err::<(Seq<u8>, Seq<u8>), KvError>(
            KvError::CursorOutOfBounds,
        ),
{
}

} // verus!
