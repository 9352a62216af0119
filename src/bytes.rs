use vstd::prelude::*;

verus! {

/// Length of the longest common prefix of `a` and `b`.
pub open spec fn common_len(a: Seq<u8>, b: Seq<u8>) -> nat
    decreases a.len(),
{
    if a.len() == 0 || b.len() == 0 || a[0] != b[0] {
        0
    } else {
        1 + common_len(a.drop_first(), b.drop_first())
    }
}

/// `p` is a prefix of `s`.
pub open spec fn starts_with(s: Seq<u8>, p: Seq<u8>) -> bool {
    p.len() <= s.len() && s.subrange(0, p.len() as int) == p
}

/// Strict byte-wise lexicographic order, the order in which the store keeps keys.
pub open spec fn bytes_lt(a: Seq<u8>, b: Seq<u8>) -> bool {
    let n = common_len(a, b);
    n < b.len() && (n == a.len() || a[n as int] < b[n as int])
}

/// Non-strict byte-wise lexicographic order.
pub open spec fn bytes_le(a: Seq<u8>, b: Seq<u8>) -> bool {
    a == b || bytes_lt(a, b)
}

/// What `common_len` counts: the positions below it agree, and the one at it
/// differs or lies past an end.
pub proof fn lemma_common_len(a: Seq<u8>, b: Seq<u8>)
    ensures
        common_len(a, b) <= a.len(),
        common_len(a, b) <= b.len(),
        forall|j: int| 0 <= j < common_len(a, b) ==> a[j] == b[j],
        common_len(a, b) == a.len() || common_len(a, b) == b.len() || a[common_len(a, b) as int]
            != b[common_len(a, b) as int],
        common_len(a, b) == common_len(b, a),
    decreases a.len(),
{
    if a.len() == 0 || b.len() == 0 || a[0] != b[0] {
    } else {
        lemma_common_len(a.drop_first(), b.drop_first());
        assert forall|j: int| 0 <= j < common_len(a, b) implies a[j] == b[j] by {
            if j > 0 {
                assert(a[j] == a.drop_first()[j - 1]);
                assert(b[j] == b.drop_first()[j - 1]);
            }
        }
    }
}

/// `common_len` is the one length with the properties of `lemma_common_len`.
pub proof fn lemma_common_len_unique(a: Seq<u8>, b: Seq<u8>, n: nat)
    requires
        n <= a.len(),
        n <= b.len(),
        forall|j: int| 0 <= j < n ==> a[j] == b[j],
        n == a.len() || n == b.len() || a[n as int] != b[n as int],
    ensures
        common_len(a, b) == n,
{
    lemma_common_len(a, b);
    let c = common_len(a, b);
    if c < n {
        assert(a[c as int] == b[c as int]);
    } else if c > n {
        assert(a[n as int] == b[n as int]);
    }
}

/// The strict order is irreflexive and total, and `bytes_le` is its reflexive closure.
pub proof fn lemma_lt_trichotomy(a: Seq<u8>, b: Seq<u8>)
    ensures
        !bytes_lt(a, a),
        a == b || bytes_lt(a, b) || bytes_lt(b, a),
        !(bytes_lt(a, b) && bytes_lt(b, a)),
        bytes_le(a, b) <==> !bytes_lt(b, a),
{
    lemma_common_len(a, b);
    lemma_common_len(a, a);
    let n = common_len(a, b);
    if n == a.len() && n == b.len() {
        assert(a =~= b);
    }
}

/// Transitivity of the order, in its mixed forms.
pub proof fn lemma_lt_transitive(a: Seq<u8>, b: Seq<u8>, c: Seq<u8>)
    ensures
        bytes_lt(a, b) && bytes_lt(b, c) ==> bytes_lt(a, c),
        bytes_le(a, b) && bytes_lt(b, c) ==> bytes_lt(a, c),
        bytes_lt(a, b) && bytes_le(b, c) ==> bytes_lt(a, c),
        bytes_le(a, b) && bytes_le(b, c) ==> bytes_le(a, c),
{
    lemma_common_len(a, b);
    lemma_common_len(b, c);
    lemma_common_len(a, c);
    let x = common_len(a, b);
    let y = common_len(b, c);
    if bytes_lt(a, b) && bytes_lt(b, c) {
        let m = if x < y { x } else { y };
        if x < y {
            lemma_common_len_unique(a, c, x);
        } else if y < x {
            lemma_common_len_unique(a, c, y);
        } else {
            if x < a.len() {
                lemma_common_len_unique(a, c, x);
            } else {
                lemma_common_len_unique(a, c, x);
            }
        }
        assert(common_len(a, c) == m);
    }
}

/// A key sorts strictly before itself followed by any further bytes.
pub proof fn lemma_lt_extension(k: Seq<u8>, tail: Seq<u8>)
    requires
        tail.len() > 0,
    ensures
        bytes_lt(k, k + tail),
{
    lemma_common_len_unique(k, k + tail, k.len());
}

/// Byte-wise comparison: -1, 0 or 1 as `a` sorts before, equal to or after `b`.
pub fn compare_bytes(a: &[u8], b: &[u8]) -> (r: i8)
    ensures
        r == -1 <==> bytes_lt(a@, b@),
        r == 0 <==> a@ == b@,
        r == 1 <==> bytes_lt(b@, a@),
{
    let n = common_prefix_len(a, b);
    proof {
        lemma_common_len(a@, b@);
        lemma_lt_trichotomy(a@, b@);
        lemma_common_len(b@, a@);
    }
    if n == a.len() && n == b.len() {
        assert(a@ =~= b@);
        0
    } else if n == a.len() || (n < b.len() && a[n] < b[n]) {
        -1
    } else {
        1
    }
}

/// Length of the longest common prefix of two byte strings.
pub fn common_prefix_len(a: &[u8], b: &[u8]) -> (r: usize)
    ensures
        r == common_len(a@, b@),
{
    let mut i: usize = 0;
    while i < a.len() && i < b.len() && a[i] == b[i]
        invariant
            i <= a.len(),
            i <= b.len(),
            forall|j: int| 0 <= j < i ==> a@[j] == b@[j],
        decreases a.len() - i,
    {
        i = i + 1;
    }
    proof {
        lemma_common_len_unique(a@, b@, i as nat);
    }
    i
}

/// The longest common prefix of two byte strings.
pub fn common_prefix_for_bytes(a: &[u8], b: &[u8]) -> (r: Vec<u8>)
    ensures
        r@ == a@.subrange(0, common_len(a@, b@) as int),
{
    let n = common_prefix_len(a, b);
    proof {
        lemma_common_len(a@, b@);
    }
    slice_prefix(a, n)
}

/// The first `n` bytes of `a`.
pub fn slice_prefix(a: &[u8], n: usize) -> (r: Vec<u8>)
    requires
        n <= a.len(),
    ensures
        r@ == a@.subrange(0, n as int),
{
    let mut r: Vec<u8> = Vec::new();
    let mut i: usize = 0;
    while i < n
        invariant
            i <= n,
            n <= a.len(),
            r@ == a@.subrange(0, i as int),
        decreases n - i,
    {
        r.push(a[i]);
        i = i + 1;
    }
    r
}

/// The bytes of `a` from position `n` on.
pub fn slice_suffix(a: &[u8], n: usize) -> (r: Vec<u8>)
    requires
        n <= a.len(),
    ensures
        r@ == a@.subrange(n as int, a.len() as int),
{
    let mut r: Vec<u8> = Vec::new();
    let mut i: usize = n;
    while i < a.len()
        invariant
            n <= i <= a.len(),
            r@ == a@.subrange(n as int, i as int),
        decreases a.len() - i,
    {
        r.push(a[i]);
        i = i + 1;
    }
    r
}

/// A key lying between two keys that both begin with `p` begins with `p` too.
pub proof fn lemma_prefix_between(lo: Seq<u8>, k: Seq<u8>, hi: Seq<u8>, p: Seq<u8>)
    requires
        starts_with(lo, p),
        starts_with(hi, p),
        bytes_le(lo, k),
        bytes_lt(k, hi),
    ensures
        starts_with(k, p),
{
    lemma_common_len(k, p);
    lemma_lt_trichotomy(lo, k);
    lemma_lt_trichotomy(k, hi);
    let n = common_len(k, p);
    assert forall|j: int| 0 <= j < p.len() implies lo[j] == p[j] && hi[j] == p[j] by {
        assert(lo.subrange(0, p.len() as int)[j] == lo[j]);
        assert(hi.subrange(0, p.len() as int)[j] == hi[j]);
    }
    if n == p.len() {
        assert(k.subrange(0, p.len() as int) =~= p);
    } else if n == k.len() {
        lemma_common_len_unique(k, lo, n);
        assert(bytes_lt(k, lo));
    } else if k[n as int] < p[n as int] {
        lemma_common_len_unique(k, lo, n);
        assert(bytes_lt(k, lo));
    } else {
        lemma_common_len_unique(hi, k, n);
        assert(bytes_lt(hi, k));
    }
}

/// `a` followed by `b`.
pub fn concat_bytes(a: &[u8], b: &[u8]) -> (r: Vec<u8>)
    ensures
        r@ == a@ + b@,
{
    let mut r: Vec<u8> = Vec::new();
    let mut i: usize = 0;
    while i < a.len()
        invariant
            i <= a.len(),
            r@ == a@.subrange(0, i as int),
        decreases a.len() - i,
    {
        r.push(a[i]);
        i = i + 1;
    }
    let mut j: usize = 0;
    while j < b.len()
        invariant
            j <= b.len(),
            r@ == a@ + b@.subrange(0, j as int),
        decreases b.len() - j,
    {
        r.push(b[j]);
        j = j + 1;
    }
    assert(b@.subrange(0, b.len() as int) =~= b@);
    r
}

/// `a` followed by the single byte `x`.
pub fn push_byte(a: &[u8], x: u8) -> (r: Vec<u8>)
    ensures
        r@ == a@.push(x),
{
    let mut r = slice_prefix(a, a.len());
    assert(a@.subrange(0, a.len() as int) =~= a@);
    r.push(x);
    r
}

/// Whether `s` begins with `p`.
pub fn has_prefix(s: &[u8], p: &[u8]) -> (r: bool)
    ensures
        r == starts_with(s@, p@),
{
    if p.len() > s.len() {
        return false;
    }
    let mut i: usize = 0;
    while i < p.len()
        invariant
            i <= p.len(),
            p.len() <= s.len(),
            forall|j: int| 0 <= j < i ==> s@[j] == p@[j],
        decreases p.len() - i,
    {
        if s[i] != p[i] {
            assert(s@.subrange(0, p.len() as int)[i as int] != p@[i as int]);
            return false;
        }
        i = i + 1;
    }
    assert(s@.subrange(0, p.len() as int) =~= p@);
    true
}

} // verus!
