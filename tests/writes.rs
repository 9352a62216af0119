use deno_kv::error::KvError;
use deno_kv::versionstamp::{parse_versionstamp, versionstamp_to_hex};
use deno_kv::write::{
    enqueue_from_request, mutation_from_request, prepare_atomic_write, Check, Enqueue,
    EnqueueRequest, KvValue, Mutation, MutationKind, MutationOp, MutationRequest,
};

fn check(key: Vec<u8>) -> Check {
    Check { key, versionstamp: None }
}

fn set(key: Vec<u8>, len: usize) -> Mutation {
    Mutation { key, kind: MutationKind::SetValue(KvValue::Bytes(vec![0u8; len])), expire_at: None }
}

fn enqueue(len: usize, schedule: Option<Vec<u32>>) -> Enqueue {
    Enqueue { payload: vec![0u8; len], deadline: 0, keys_if_undelivered: vec![], backoff_schedule: schedule }
}

#[test]
fn exactly_the_check_limit_is_accepted() {
    let hundred: Vec<Check> = (0..100).map(|_| check(vec![1])).collect();
    assert!(prepare_atomic_write(hundred, vec![], vec![]).is_ok());
    let more: Vec<Check> = (0..101).map(|_| check(vec![1])).collect();
    assert!(matches!(prepare_atomic_write(more, vec![], vec![]), Err(KvError::TooManyChecks)));
}

#[test]
fn exactly_the_payload_budget_is_accepted() {
    // each mutation counts its key twice and its value once: 2 + 40958 bytes
    let at_budget: Vec<Mutation> = (0..20).map(|_| set(vec![9], 40958)).collect();
    assert!(prepare_atomic_write(vec![], at_budget, vec![]).is_ok());
    let mut over: Vec<Mutation> = (0..19).map(|_| set(vec![9], 40958)).collect();
    over.push(set(vec![9], 40959));
    assert!(matches!(
        prepare_atomic_write(vec![], over, vec![]),
        Err(KvError::TotalMutationSizeTooLarge)
    ));
}

#[test]
fn enqueue_payload_and_schedule_count_toward_the_budget() {
    let mut parts: Vec<Enqueue> = (0..12).map(|_| enqueue(65536, None)).collect();
    // 12 * 65536 = 786432; 32768 bytes remain, 8192 schedule entries fill them
    parts.push(enqueue(0, Some(vec![1u32; 8192])));
    assert!(prepare_atomic_write(vec![], vec![], parts).is_ok());
    let mut over: Vec<Enqueue> = (0..12).map(|_| enqueue(65536, None)).collect();
    over.push(enqueue(1, Some(vec![1u32; 8192])));
    assert!(matches!(
        prepare_atomic_write(vec![], vec![], over),
        Err(KvError::TotalMutationSizeTooLarge)
    ));
}

#[test]
fn too_many_mutations_and_enqueues() {
    let muts: Vec<Mutation> = (0..600).map(|_| set(vec![1], 1)).collect();
    let enqs: Vec<Enqueue> = (0..401).map(|_| enqueue(1, None)).collect();
    assert!(matches!(prepare_atomic_write(vec![], muts, enqs), Err(KvError::TooManyMutations)));
}

#[test]
fn key_refusals() {
    assert!(matches!(prepare_atomic_write(vec![check(vec![])], vec![], vec![]), Err(KvError::EmptyKey)));
    assert!(matches!(
        prepare_atomic_write(vec![], vec![set(vec![1u8; 2049], 1)], vec![]),
        Err(KvError::WriteKeyTooLarge)
    ));
    assert!(prepare_atomic_write(vec![], vec![set(vec![1u8; 2048], 1)], vec![]).is_ok());
    // the first refused key decides the error
    assert!(matches!(
        prepare_atomic_write(vec![check(vec![1u8; 3000])], vec![set(vec![], 1)], vec![]),
        Err(KvError::WriteKeyTooLarge)
    ));
}

#[test]
fn value_and_payload_refusals() {
    assert!(matches!(
        prepare_atomic_write(vec![], vec![set(vec![1], 65537)], vec![]),
        Err(KvError::ValueTooLarge)
    ));
    assert!(prepare_atomic_write(vec![], vec![set(vec![1], 65536)], vec![]).is_ok());
    assert!(matches!(
        prepare_atomic_write(vec![], vec![], vec![enqueue(65537, None)]),
        Err(KvError::EnqueuePayloadTooLarge)
    ));
}

#[test]
fn total_key_budget() {
    // 41 keys of 2000 bytes: 82000 > 81920, while the payload stays under budget
    let muts: Vec<Mutation> = (0..41).map(|i| set(vec![i as u8; 2000], 1)).collect();
    assert!(matches!(prepare_atomic_write(vec![], muts, vec![]), Err(KvError::TotalKeySizeTooLarge)));
    let deletes: Vec<Mutation> = (0..41)
        .map(|i| Mutation { key: vec![i as u8; 2000], kind: MutationKind::Delete, expire_at: None })
        .collect();
    assert!(prepare_atomic_write(vec![], deletes, vec![]).is_ok());
}

#[test]
fn accepted_write_keeps_its_parts() {
    let w = prepare_atomic_write(vec![check(vec![1])], vec![set(vec![2], 3)], vec![enqueue(4, None)])
        .unwrap();
    assert_eq!(w.checks, vec![check(vec![1])]);
    assert_eq!(w.mutations, vec![set(vec![2], 3)]);
    assert_eq!(w.enqueues, vec![enqueue(4, None)]);
}

fn request(op: MutationOp, value: Option<KvValue>, expire_in: Option<u64>) -> MutationRequest {
    MutationRequest { key: vec![1], op, value, expire_in }
}

#[test]
fn set_without_value_is_refused() {
    let r = mutation_from_request(request(MutationOp::SetValue, None, None), 0);
    assert_eq!(r, Err(KvError::MutationWithoutValue(MutationOp::SetValue)));
}

#[test]
fn delete_with_value_is_refused() {
    let r = mutation_from_request(request(MutationOp::Delete, Some(KvValue::U64(1)), None), 0);
    assert_eq!(r, Err(KvError::MutationWithValue(MutationOp::Delete)));
}

#[test]
fn sum_with_value_is_accepted() {
    let r = mutation_from_request(request(MutationOp::Sum, Some(KvValue::U64(5)), None), 0).unwrap();
    assert_eq!(r.kind, MutationKind::Sum(KvValue::U64(5)));
    assert_eq!(r.expire_at, None);
}

#[test]
fn other_pairings() {
    let del = mutation_from_request(request(MutationOp::Delete, None, None), 0).unwrap();
    assert_eq!(del.kind, MutationKind::Delete);
    let unknown = MutationOp::Other("append".to_string());
    assert_eq!(
        mutation_from_request(request(unknown.clone(), None, None), 0),
        Err(KvError::MutationWithoutValue(unknown.clone()))
    );
    assert_eq!(
        mutation_from_request(request(unknown.clone(), Some(KvValue::U64(1)), None), 0),
        Err(KvError::MutationWithValue(unknown))
    );
    for op in [MutationOp::Min, MutationOp::Max, MutationOp::SetSuffixVersionstampedKey] {
        assert!(mutation_from_request(request(op.clone(), None, None), 0).is_err());
        assert!(mutation_from_request(request(op, Some(KvValue::U64(1)), None), 0).is_ok());
    }
}

#[test]
fn expiry_is_absolute() {
    let r = mutation_from_request(request(MutationOp::SetValue, Some(KvValue::U64(1)), Some(500)), 1_000)
        .unwrap();
    assert_eq!(r.expire_at, Some(1_500));
    let overflow = mutation_from_request(
        request(MutationOp::SetValue, Some(KvValue::U64(1)), Some(u64::MAX)),
        1,
    );
    assert_eq!(overflow, Err(KvError::TimestampOutOfRange));
}

#[test]
fn enqueue_deadline_is_now_plus_delay() {
    let t: u64 = 1_700_000_000_000;
    let req = EnqueueRequest {
        payload: vec![7, 7],
        delay_ms: 1000,
        keys_if_undelivered: vec![vec![1]],
        backoff_schedule: Some(vec![10, 20]),
    };
    let e = enqueue_from_request(req, t).unwrap();
    assert_eq!(e.deadline, t + 1000);
    assert_eq!(e.payload, vec![7, 7]);
    assert_eq!(e.backoff_schedule, Some(vec![10, 20]));
    let late = EnqueueRequest { payload: vec![], delay_ms: u64::MAX, keys_if_undelivered: vec![], backoff_schedule: None };
    assert!(matches!(enqueue_from_request(late, 2), Err(KvError::TimestampOutOfRange)));
}

#[test]
fn versionstamp_text_round_trip() {
    let v = parse_versionstamp(b"00000000000000010aFf").unwrap();
    assert_eq!(v, [0, 0, 0, 0, 0, 0, 0, 1, 0x0a, 0xff]);
    assert_eq!(versionstamp_to_hex(&v), "00000000000000010aff");
}

#[test]
fn versionstamp_refusals() {
    assert_eq!(parse_versionstamp(b"0000"), Err(KvError::InvalidVersionstampLength));
    assert_eq!(parse_versionstamp(b"0000000000000001000g"), Err(KvError::InvalidVersionstamp));
}
