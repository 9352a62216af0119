use vstd::prelude::*;

use crate::error::KvError;
use crate::limits::{
    MAX_CHECKS, MAX_MUTATIONS, MAX_READ_KEY_SIZE_BYTES, MAX_TOTAL_KEY_SIZE_BYTES,
    MAX_TOTAL_MUTATION_SIZE_BYTES, MAX_VALUE_SIZE_BYTES, MAX_WRITE_KEY_SIZE_BYTES,
};

verus! {

/// A stored value.
#[derive(Debug, Clone, PartialEq, Eq)]
pub enum KvValue {
    /// A value in the host runtime's serialization format.
    V8(Vec<u8>),
    /// Raw bytes.
    Bytes(Vec<u8>),
    /// An unsigned 64-bit integer, the operand of sum, min and max.
    U64(u64),
}

/// What a mutation does to its key.
#[derive(Debug, Clone, PartialEq, Eq)]
pub enum MutationKind {
    SetValue(KvValue),
    Delete,
    Sum(KvValue),
    Min(KvValue),
    Max(KvValue),
    SetSuffixVersionstampedKey(KvValue),
}

/// A mutation kind as a caller names it, before it is paired with a value.
#[derive(Debug, Clone, PartialEq, Eq)]
pub enum MutationOp {
    SetValue,
    Delete,
    Sum,
    Min,
    Max,
    SetSuffixVersionstampedKey,
    /// A name that is no mutation kind.
    Other(String),
}

/// An optimistic-concurrency guard: the key must still carry `versionstamp`
/// (or be absent, when it is `None`).
#[derive(Debug, Clone, PartialEq, Eq)]
pub struct Check {
    pub key: Vec<u8>,
    pub versionstamp: Option<[u8; 10]>,
}

/// One change to one key, with an optional absolute expiry in milliseconds.
#[derive(Debug, Clone, PartialEq, Eq)]
pub struct Mutation {
    pub key: Vec<u8>,
    pub kind: MutationKind,
    pub expire_at: Option<u64>,
}

/// A message for deferred delivery at the absolute time `deadline` (milliseconds).
#[derive(Debug, Clone, PartialEq, Eq)]
pub struct Enqueue {
    pub payload: Vec<u8>,
    pub deadline: u64,
    pub keys_if_undelivered: Vec<Vec<u8>>,
    pub backoff_schedule: Option<Vec<u32>>,
}

/// Checks, mutations and enqueues that the backend applies as one unit.
#[derive(Debug, Clone, PartialEq, Eq)]
pub struct AtomicWrite {
    pub checks: Vec<Check>,
    pub mutations: Vec<Mutation>,
    pub enqueues: Vec<Enqueue>,
}

/// A mutation as a caller describes it: a kind, an optional value and an
/// optional time to live in milliseconds.
#[derive(Debug, Clone, PartialEq, Eq)]
pub struct MutationRequest {
    pub key: Vec<u8>,
    pub op: MutationOp,
    pub value: Option<KvValue>,
    pub expire_in: Option<u64>,
}

/// An enqueue as a caller describes it: the delay is relative to the current time.
#[derive(Debug, Clone, PartialEq, Eq)]
pub struct EnqueueRequest {
    pub payload: Vec<u8>,
    pub delay_ms: u64,
    pub keys_if_undelivered: Vec<Vec<u8>>,
    pub backoff_schedule: Option<Vec<u32>>,
}

impl MutationKind {
    /// The value the mutation carries, if its kind takes one.
    pub open spec fn spec_value(self) -> Option<KvValue> {
        match self {
            MutationKind::SetValue(v) => Some(v),
            MutationKind::Delete => None,
            MutationKind::Sum(v) => Some(v),
            MutationKind::Min(v) => Some(v),
            MutationKind::Max(v) => Some(v),
            MutationKind::SetSuffixVersionstampedKey(v) => Some(v),
        }
    }

    /// The value the mutation carries, if its kind takes one.
    pub fn value(&self) -> (r: Option<&KvValue>)
        ensures
            match r {
                Some(v) => self.spec_value() == Some(*v),
                None => self.spec_value() is None,
            },
    {
        match self {
            MutationKind::SetValue(v) => Some(v),
            MutationKind::Delete => None,
            MutationKind::Sum(v) => Some(v),
            MutationKind::Min(v) => Some(v),
            MutationKind::Max(v) => Some(v),
            MutationKind::SetSuffixVersionstampedKey(v) => Some(v),
        }
    }
}

/// The kind that an operation name and an optional value make, or why they do not pair.
pub open spec fn pair_mutation(op: MutationOp, value: Option<KvValue>) -> Result<MutationKind, KvError> {
    match (op, value) {
        (MutationOp::SetValue, Some(v)) => Ok(MutationKind::SetValue(v)),
        (MutationOp::Delete, None) => Ok(MutationKind::Delete),
        (MutationOp::Sum, Some(v)) => Ok(MutationKind::Sum(v)),
        (MutationOp::Min, Some(v)) => Ok(MutationKind::Min(v)),
        (MutationOp::Max, Some(v)) => Ok(MutationKind::Max(v)),
        (MutationOp::SetSuffixVersionstampedKey, Some(v)) => Ok(
            MutationKind::SetSuffixVersionstampedKey(v),
        ),
        (op, Some(_)) => Err(KvError::MutationWithValue(op)),
        (op, None) => Err(KvError::MutationWithoutValue(op)),
    }
}

/// Builds a mutation from a request: pairs kind and value, and turns a time to
/// live into an absolute expiry counted from `now_ms`.
pub fn mutation_from_request(req: MutationRequest, now_ms: u64) -> (r: Result<Mutation, KvError>)
    ensures
        match pair_mutation(req.op, req.value) {
            Err(e) => r == Err::<Mutation, KvError>(e),
            Ok(kind) => match req.expire_in {
                None => r == Ok::<Mutation, KvError>(
                    Mutation { key: req.key, kind, expire_at: None },
                ),
                Some(ms) => if now_ms + ms > u64::MAX {
                    r == Err::<Mutation, KvError>(KvError::TimestampOutOfRange)
                } else {
                    r == Ok::<Mutation, KvError>(
                        Mutation { key: req.key, kind, expire_at: Some((now_ms + ms) as u64) },
                    )
                },
            },
        },
{
    let MutationRequest { key, op, value, expire_in } = req;
    let kind = match (op, value) {
        (MutationOp::SetValue, Some(v)) => MutationKind::SetValue(v),
        (MutationOp::Delete, None) => MutationKind::Delete,
        (MutationOp::Sum, Some(v)) => MutationKind::Sum(v),
        (MutationOp::Min, Some(v)) => MutationKind::Min(v),
        (MutationOp::Max, Some(v)) => MutationKind::Max(v),
        (MutationOp::SetSuffixVersionstampedKey, Some(v)) => MutationKind::SetSuffixVersionstampedKey(
            v,
        ),
        (op, Some(_)) => return Err(KvError::MutationWithValue(op)),
        (op, None) => return Err(KvError::MutationWithoutValue(op)),
    };
    let expire_at = match expire_in {
        None => None,
        Some(ms) => match now_ms.checked_add(ms) {
            Some(t) => Some(t),
            None => return Err(KvError::TimestampOutOfRange),
        },
    };
    Ok(Mutation { key, kind, expire_at })
}

/// Builds an enqueue from a request: its deadline is `now_ms` plus the delay.
pub fn enqueue_from_request(req: EnqueueRequest, now_ms: u64) -> (r: Result<Enqueue, KvError>)
    ensures
        if now_ms + req.delay_ms > u64::MAX {
            r == Err::<Enqueue, KvError>(KvError::TimestampOutOfRange)
        } else {
            r == Ok::<Enqueue, KvError>(
                Enqueue {
                    payload: req.payload,
                    deadline: (now_ms + req.delay_ms) as u64,
                    keys_if_undelivered: req.keys_if_undelivered,
                    backoff_schedule: req.backoff_schedule,
                },
            )
        },
{
    let EnqueueRequest { payload, delay_ms, keys_if_undelivered, backoff_schedule } = req;
    match now_ms.checked_add(delay_ms) {
        Some(deadline) => Ok(Enqueue { payload, deadline, keys_if_undelivered, backoff_schedule }),
        None => Err(KvError::TimestampOutOfRange),
    }
}

/// Refuses a selector boundary or watched key longer than the read limit.
pub fn check_read_key_size(key: &[u8]) -> (r: Result<(), KvError>)
    ensures
        r is Ok <==> key@.len() <= MAX_READ_KEY_SIZE_BYTES,
        r is Err ==> r == Err::<(), KvError>(KvError::ReadKeyTooLarge),
{
    if key.len() > MAX_READ_KEY_SIZE_BYTES {
        Err(KvError::ReadKeyTooLarge)
    } else {
        Ok(())
    }
}

/// Refuses a key longer than the write limit; otherwise gives its size.
pub fn check_write_key_size(key: &[u8]) -> (r: Result<usize, KvError>)
    ensures
        key@.len() <= MAX_WRITE_KEY_SIZE_BYTES ==> r == Ok::<usize, KvError>(key@.len() as usize),
        key@.len() > MAX_WRITE_KEY_SIZE_BYTES ==> r == Err::<usize, KvError>(
            KvError::WriteKeyTooLarge,
        ),
{
    if key.len() > MAX_WRITE_KEY_SIZE_BYTES {
        Err(KvError::WriteKeyTooLarge)
    } else {
        Ok(key.len())
    }
}

/// Size a value counts for in the payload budget: its bytes, or 8 for an integer.
pub open spec fn value_size(v: KvValue) -> nat {
    match v {
        KvValue::V8(b) => b@.len(),
        KvValue::Bytes(b) => b@.len(),
        KvValue::U64(_) => 8,
    }
}

/// Refuses a value longer than the value limit; otherwise gives its size.
pub fn check_value_size(value: &KvValue) -> (r: Result<usize, KvError>)
    ensures
        value_size(*value) <= MAX_VALUE_SIZE_BYTES ==> r == Ok::<usize, KvError>(
            value_size(*value) as usize,
        ),
        value_size(*value) > MAX_VALUE_SIZE_BYTES ==> r == Err::<usize, KvError>(
            KvError::ValueTooLarge,
        ),
{
    let payload = match value {
        KvValue::Bytes(x) => x,
        KvValue::V8(x) => x,
        KvValue::U64(_) => return Ok(8),
    };
    if payload.len() > MAX_VALUE_SIZE_BYTES {
        Err(KvError::ValueTooLarge)
    } else {
        Ok(payload.len())
    }
}

/// Refuses an enqueue payload longer than the value limit; otherwise gives its size.
pub fn check_enqueue_payload_size(payload: &[u8]) -> (r: Result<usize, KvError>)
    ensures
        payload@.len() <= MAX_VALUE_SIZE_BYTES ==> r == Ok::<usize, KvError>(
            payload@.len() as usize,
        ),
        payload@.len() > MAX_VALUE_SIZE_BYTES ==> r == Err::<usize, KvError>(
            KvError::EnqueuePayloadTooLarge,
        ),
{
    if payload.len() > MAX_VALUE_SIZE_BYTES {
        Err(KvError::EnqueuePayloadTooLarge)
    } else {
        Ok(payload.len())
    }
}

/// The keys of the checks followed by the keys of the mutations.
pub open spec fn write_keys(checks: Seq<Check>, mutations: Seq<Mutation>) -> Seq<Seq<u8>> {
    checks.map_values(|c: Check| c.key@) + mutations.map_values(|m: Mutation| m.key@)
}

/// Total size of `keys`, or the error of the first key that is empty or too long.
pub open spec fn key_total(keys: Seq<Seq<u8>>) -> Result<nat, KvError>
    decreases keys.len(),
{
    if keys.len() == 0 {
        Ok(0)
    } else {
        match key_total(keys.drop_last()) {
            Err(e) => Err(e),
            Ok(t) => if keys.last().len() == 0 {
                Err(KvError::EmptyKey)
            } else if keys.last().len() > MAX_WRITE_KEY_SIZE_BYTES {
                Err(KvError::WriteKeyTooLarge)
            } else {
                Ok(t + keys.last().len())
            },
        }
    }
}

/// For the mutations that carry a value: the total of key and value sizes and the
/// total of key sizes, or the error of the first one that is too large.
pub open spec fn value_total(mutations: Seq<Mutation>) -> Result<(nat, nat), KvError>
    decreases mutations.len(),
{
    if mutations.len() == 0 {
        Ok((0, 0))
    } else {
        match value_total(mutations.drop_last()) {
            Err(e) => Err(e),
            Ok((p, k)) => {
                let m = mutations.last();
                match m.kind.spec_value() {
                    None => Ok((p, k)),
                    Some(v) => if m.key@.len() > MAX_WRITE_KEY_SIZE_BYTES {
                        Err(KvError::WriteKeyTooLarge)
                    } else if value_size(v) > MAX_VALUE_SIZE_BYTES {
                        Err(KvError::ValueTooLarge)
                    } else {
                        Ok((p + value_size(v) + m.key@.len(), k + m.key@.len()))
                    },
                }
            },
        }
    }
}

/// Payload and backoff-schedule entries (4 bytes each) of the enqueues, or the
/// error of the first payload that is too large.
pub open spec fn enqueue_total(enqueues: Seq<Enqueue>) -> Result<nat, KvError>
    decreases enqueues.len(),
{
    if enqueues.len() == 0 {
        Ok(0)
    } else {
        match enqueue_total(enqueues.drop_last()) {
            Err(e) => Err(e),
            Ok(t) => {
                let q = enqueues.last();
                if q.payload@.len() > MAX_VALUE_SIZE_BYTES {
                    Err(KvError::EnqueuePayloadTooLarge)
                } else {
                    Ok(
                        t + q.payload@.len() + match q.backoff_schedule {
                            Some(s) => 4 * s@.len(),
                            None => 0,
                        },
                    )
                }
            },
        }
    }
}

/// Whether an atomic write of these parts fits every budget, and if not, the first
/// budget it breaks.
pub open spec fn atomic_write_outcome(
    checks: Seq<Check>,
    mutations: Seq<Mutation>,
    enqueues: Seq<Enqueue>,
) -> Result<(), KvError> {
    if checks.len() > MAX_CHECKS {
        Err(KvError::TooManyChecks)
    } else if mutations.len() + enqueues.len() > MAX_MUTATIONS {
        Err(KvError::TooManyMutations)
    } else {
        match key_total(write_keys(checks, mutations)) {
            Err(e) => Err(e),
            Ok(t1) => match value_total(mutations) {
                Err(e) => Err(e),
                Ok((t2, k2)) => match enqueue_total(enqueues) {
                    Err(e) => Err(e),
                    Ok(t3) => if t1 + t2 + t3 > MAX_TOTAL_MUTATION_SIZE_BYTES {
                        Err(KvError::TotalMutationSizeTooLarge)
                    } else if k2 > MAX_TOTAL_KEY_SIZE_BYTES {
                        Err(KvError::TotalKeySizeTooLarge)
                    } else {
                        Ok(())
                    },
                },
            },
        }
    }
}

/// `t`, or the largest `usize` where `t` is larger.
pub open spec fn saturate(t: nat) -> nat {
    if t > usize::MAX {
        usize::MAX as nat
    } else {
        t
    }
}

proof fn lemma_key_total_stops(s: Seq<Seq<u8>>, i: int)
    requires
        0 <= i <= s.len(),
        key_total(s.subrange(0, i)) is Err,
    ensures
        key_total(s) == key_total(s.subrange(0, i)),
    decreases s.len() - i,
{
    if i < s.len() {
        assert(s.subrange(0, i + 1).drop_last() =~= s.subrange(0, i));
        lemma_key_total_stops(s, i + 1);
    } else {
        assert(s.subrange(0, i) =~= s);
    }
}

proof fn lemma_value_total_stops(s: Seq<Mutation>, i: int)
    requires
        0 <= i <= s.len(),
        value_total(s.subrange(0, i)) is Err,
    ensures
        value_total(s) == value_total(s.subrange(0, i)),
    decreases s.len() - i,
{
    if i < s.len() {
        assert(s.subrange(0, i + 1).drop_last() =~= s.subrange(0, i));
        lemma_value_total_stops(s, i + 1);
    } else {
        assert(s.subrange(0, i) =~= s);
    }
}

proof fn lemma_enqueue_total_stops(s: Seq<Enqueue>, i: int)
    requires
        0 <= i <= s.len(),
        enqueue_total(s.subrange(0, i)) is Err,
    ensures
        enqueue_total(s) == enqueue_total(s.subrange(0, i)),
    decreases s.len() - i,
{
    if i < s.len() {
        assert(s.subrange(0, i + 1).drop_last() =~= s.subrange(0, i));
        lemma_enqueue_total_stops(s, i + 1);
    } else {
        assert(s.subrange(0, i) =~= s);
    }
}

/// Validates the parts of an atomic write against every budget, before any of it
/// reaches the backend, and packages them unchanged into one unit.
pub fn prepare_atomic_write(checks: Vec<Check>, mutations: Vec<Mutation>, enqueues: Vec<Enqueue>) -> (r:
    Result<AtomicWrite, KvError>)
    ensures
        r is Ok <==> atomic_write_outcome(checks@, mutations@, enqueues@) is Ok,
        r matches Err(e) ==> atomic_write_outcome(checks@, mutations@, enqueues@) == Err::<
            (),
            KvError,
        >(e),
        r matches Ok(w) ==> w.checks@ == checks@ && w.mutations@ == mutations@ && w.enqueues@
            == enqueues@,
{
    if checks.len() > MAX_CHECKS {
        return Err(KvError::TooManyChecks);
    }
    if mutations.len() > MAX_MUTATIONS || enqueues.len() > MAX_MUTATIONS - mutations.len() {
        return Err(KvError::TooManyMutations);
    }
    let ghost keys = write_keys(checks@, mutations@);
    let mut total_payload_size: usize = 0;
    let mut i: usize = 0;
    while i < checks.len()
        invariant
            i <= checks.len(),
            checks.len() <= MAX_CHECKS,
            mutations.len() + enqueues.len() <= MAX_MUTATIONS,
            keys == write_keys(checks@, mutations@),
            key_total(keys.subrange(0, i as int)) == Ok::<nat, KvError>(total_payload_size as nat),
            total_payload_size <= 2048 * i,
        decreases checks.len() - i,
    {
        let key = checks[i].key.as_slice();
        proof {
            assert(keys[i as int] == checks@[i as int].key@);
            assert(keys.subrange(0, i + 1).drop_last() =~= keys.subrange(0, i as int));
            assert(keys.subrange(0, i + 1).last() == keys[i as int]);
        }
        if key.len() == 0 {
            proof {
                assert(key_total(keys.subrange(0, i + 1)) == Err::<nat, KvError>(KvError::EmptyKey));
                lemma_key_total_stops(keys, i + 1);
            }
            return Err(KvError::EmptyKey);
        }
        match check_write_key_size(key) {
            Ok(n) => {
                total_payload_size = total_payload_size + n;
            },
            Err(e) => {
                proof {
                    lemma_key_total_stops(keys, i + 1);
                }
                return Err(e);
            },
        }
        i = i + 1;
    }
    let mut j: usize = 0;
    while j < mutations.len()
        invariant
            j <= mutations.len(),
            checks.len() <= MAX_CHECKS,
            mutations.len() + enqueues.len() <= MAX_MUTATIONS,
            keys == write_keys(checks@, mutations@),
            key_total(keys.subrange(0, checks.len() + j)) == Ok::<nat, KvError>(
                total_payload_size as nat,
            ),
            total_payload_size <= 2048 * (checks.len() + j),
        decreases mutations.len() - j,
    {
        let key = mutations[j].key.as_slice();
        proof {
            assert(keys[checks.len() + j] == mutations@[j as int].key@);
            assert(keys.subrange(0, checks.len() + j + 1).drop_last() =~= keys.subrange(
                0,
                checks.len() + j,
            ));
            assert(keys.subrange(0, checks.len() + j + 1).last() == keys[checks.len() + j]);
        }
        if key.len() == 0 {
            proof {
                lemma_key_total_stops(keys, checks.len() + j + 1);
            }
            return Err(KvError::EmptyKey);
        }
        match check_write_key_size(key) {
            Ok(n) => {
                total_payload_size = total_payload_size + n;
            },
            Err(e) => {
                proof {
                    lemma_key_total_stops(keys, checks.len() + j + 1);
                }
                return Err(e);
            },
        }
        j = j + 1;
    }
    proof {
        assert(keys.subrange(0, checks.len() + mutations.len()) =~= keys);
        assert(total_payload_size <= 2048 * (MAX_CHECKS + MAX_MUTATIONS));
    }
    let mut value_payload_size: usize = 0;
    let mut total_key_size: usize = 0;
    let mut k: usize = 0;
    while k < mutations.len()
        invariant
            k <= mutations.len(),
            checks.len() <= MAX_CHECKS,
            mutations.len() + enqueues.len() <= MAX_MUTATIONS,
            keys == write_keys(checks@, mutations@),
            key_total(keys) == Ok::<nat, KvError>(total_payload_size as nat),
            total_payload_size <= 2048 * (MAX_CHECKS + MAX_MUTATIONS),
            value_total(mutations@.subrange(0, k as int)) == Ok::<(nat, nat), KvError>(
                (value_payload_size as nat, total_key_size as nat),
            ),
            value_payload_size <= 67584 * k,
            total_key_size <= 2048 * k,
        decreases mutations.len() - k,
    {
        let m = &mutations[k];
        proof {
            assert(mutations@.subrange(0, k + 1).drop_last() =~= mutations@.subrange(0, k as int));
            assert(mutations@.subrange(0, k + 1).last() == mutations@[k as int]);
        }
        if let Some(value) = m.kind.value() {
            let key_size = match check_write_key_size(m.key.as_slice()) {
                Ok(n) => n,
                Err(e) => {
                    proof {
                        lemma_value_total_stops(mutations@, k + 1);
                    }
                    return Err(e);
                },
            };
            let size = match check_value_size(value) {
                Ok(n) => n,
                Err(e) => {
                    proof {
                        lemma_value_total_stops(mutations@, k + 1);
                    }
                    return Err(e);
                },
            };
            value_payload_size = value_payload_size + size + key_size;
            total_key_size = total_key_size + key_size;
        }
        k = k + 1;
    }
    proof {
        assert(mutations@.subrange(0, mutations.len() as int) =~= mutations@);
        assert(value_payload_size <= 67584 * MAX_MUTATIONS);
    }
    let mut enqueue_size: usize = 0;
    let mut q: usize = 0;
    while q < enqueues.len()
        invariant
            q <= enqueues.len(),
            checks.len() <= MAX_CHECKS,
            mutations.len() + enqueues.len() <= MAX_MUTATIONS,
            keys == write_keys(checks@, mutations@),
            key_total(keys) == Ok::<nat, KvError>(total_payload_size as nat),
            total_payload_size <= 2048 * (MAX_CHECKS + MAX_MUTATIONS),
            value_total(mutations@) == Ok::<(nat, nat), KvError>(
                (value_payload_size as nat, total_key_size as nat),
            ),
            value_payload_size <= 67584 * MAX_MUTATIONS,
            enqueue_total(enqueues@.subrange(0, q as int)) matches Ok(t) && enqueue_size == saturate(
                t,
            ),
        decreases enqueues.len() - q,
    {
        let enqueue = &enqueues[q];
        proof {
            assert(enqueues@.subrange(0, q + 1).drop_last() =~= enqueues@.subrange(0, q as int));
            assert(enqueues@.subrange(0, q + 1).last() == enqueues@[q as int]);
        }
        match check_enqueue_payload_size(enqueue.payload.as_slice()) {
            Ok(n) => {
                enqueue_size = enqueue_size.saturating_add(n);
            },
            Err(e) => {
                proof {
                    lemma_enqueue_total_stops(enqueues@, q + 1);
                }
                return Err(e);
            },
        }
        if let Some(schedule) = &enqueue.backoff_schedule {
            let n = schedule.len();
            enqueue_size = enqueue_size.saturating_add(n).saturating_add(n).saturating_add(
                n,
            ).saturating_add(n);
        }
        q = q + 1;
    }
    proof {
        assert(enqueues@.subrange(0, enqueues.len() as int) =~= enqueues@);
    }
    let total = (total_payload_size + value_payload_size).saturating_add(enqueue_size);
    if total > MAX_TOTAL_MUTATION_SIZE_BYTES {
        return Err(KvError::TotalMutationSizeTooLarge);
    }
    if total_key_size > MAX_TOTAL_KEY_SIZE_BYTES {
        return Err(KvError::TotalKeySizeTooLarge);
    }
    Ok(AtomicWrite { checks, mutations, enqueues })
}

/// Budget boundaries: up to the check limit no write fails for its number of
/// checks, and one more check always fails; with every other budget met, a total
/// payload of exactly the payload budget is accepted and one byte more is refused.
pub proof fn lemma_write_budget_limits(checks: Seq<Check>, mutations: Seq<Mutation>, enqueues: Seq<Enqueue>)
    ensures
        checks.len() > MAX_CHECKS ==> atomic_write_outcome(checks, mutations, enqueues) == Err::<
            (),
            KvError,
        >(KvError::TooManyChecks),
        checks.len() <= MAX_CHECKS ==> atomic_write_outcome(checks, mutations, enqueues) != Err::<
            (),
            KvError,
        >(KvError::TooManyChecks),
        ({
            let within_other_budgets = checks.len() <= MAX_CHECKS && mutations.len()
                + enqueues.len() <= MAX_MUTATIONS && key_total(write_keys(checks, mutations)) is Ok
                && value_total(mutations) is Ok && enqueue_total(enqueues) is Ok
                && value_total(mutations)->Ok_0.1 <= MAX_TOTAL_KEY_SIZE_BYTES;
            let payload = key_total(write_keys(checks, mutations))->Ok_0 + value_total(
                mutations,
            )->Ok_0.0 + enqueue_total(enqueues)->Ok_0;
            within_other_budgets ==> (payload <= MAX_TOTAL_MUTATION_SIZE_BYTES <==> atomic_write_outcome(
                checks,
                mutations,
                enqueues,
            ) is Ok) && (payload > MAX_TOTAL_MUTATION_SIZE_BYTES ==> atomic_write_outcome(
                checks,
                mutations,
                enqueues,
            ) == Err::<(), KvError>(KvError::TotalMutationSizeTooLarge))
        }),
{
    lemma_key_total_never_too_many_checks(write_keys(checks, mutations));
    lemma_value_total_never_too_many_checks(mutations);
    lemma_enqueue_total_never_too_many_checks(enqueues);
}

proof fn lemma_key_total_never_too_many_checks(keys: Seq<Seq<u8>>)
    ensures
        key_total(keys) != Err::<nat, KvError>(KvError::TooManyChecks),
    decreases keys.len(),
{
    if keys.len() > 0 {
        lemma_key_total_never_too_many_checks(keys.drop_last());
    }
}

proof fn lemma_value_total_never_too_many_checks(mutations: Seq<Mutation>)
    ensures
        value_total(mutations) != Err::<(nat, nat), KvError>(KvError::TooManyChecks),
    decreases mutations.len(),
{
    if mutations.len() > 0 {
        lemma_value_total_never_too_many_checks(mutations.drop_last());
    }
}

proof fn lemma_enqueue_total_never_too_many_checks(enqueues: Seq<Enqueue>)
    ensures
        enqueue_total(enqueues) != Err::<nat, KvError>(KvError::TooManyChecks),
    decreases enqueues.len(),
{
    if enqueues.len() > 0 {
        lemma_enqueue_total_never_too_many_checks(enqueues.drop_last());
    }
}

} // verus!
