use deno_kv::cursor::{apply_cursor, decode_selector_and_cursor, encode_cursor};
use deno_kv::error::KvError;
use deno_kv::read::{check_snapshot_read, read_range, ReadRange};
use deno_kv::selector::RawSelector;

fn users_prefix() -> Vec<u8> {
    // the tuple key ["users"]: string tag, the text, terminator
    vec![0x02, b'u', b's', b'e', b'r', b's', 0x00]
}

fn with(mut base: Vec<u8>, tail: &[u8]) -> Vec<u8> {
    base.extend_from_slice(tail);
    base
}

#[test]
fn prefix_only_brackets_the_keyspace() {
    let p = users_prefix();
    let sel = RawSelector::from_tuple(Some(p.clone()), None, None).unwrap();
    assert!(matches!(sel, RawSelector::Prefixed { start: None, end: None, .. }));
    assert_eq!(sel.range_start_key(), with(p.clone(), &[0x00]));
    assert_eq!(sel.range_end_key(), with(p.clone(), &[0xff]));
    assert_eq!(sel.common_prefix(), p);
    assert_eq!(sel.start(), None);
    assert_eq!(sel.end(), None);
}

#[test]
fn prefix_with_start_inside_keyspace() {
    let p = vec![1u8, 2];
    let sel = RawSelector::from_tuple(Some(p.clone()), Some(vec![1, 2, 7]), None).unwrap();
    assert_eq!(sel.range_start_key(), vec![1, 2, 7]);
    assert_eq!(sel.range_end_key(), vec![1, 2, 0xff]);
    assert_eq!(sel.start(), Some(&vec![1u8, 2, 7]));
}

#[test]
fn prefix_with_start_outside_keyspace() {
    let r = RawSelector::from_tuple(Some(vec![1, 2]), Some(vec![1, 3, 7]), None);
    assert!(matches!(r, Err(KvError::StartNotInPrefix)));
    let same = RawSelector::from_tuple(Some(vec![1, 2]), Some(vec![1, 2]), None);
    assert!(matches!(same, Err(KvError::StartNotInPrefix)));
}

#[test]
fn prefix_with_end_inside_and_outside_keyspace() {
    let sel = RawSelector::from_tuple(Some(vec![1, 2]), None, Some(vec![1, 2, 9])).unwrap();
    assert_eq!(sel.range_start_key(), vec![1, 2, 0]);
    assert_eq!(sel.range_end_key(), vec![1, 2, 9]);
    let bad = RawSelector::from_tuple(Some(vec![1, 2]), None, Some(vec![1, 2]));
    assert!(matches!(bad, Err(KvError::EndNotInPrefix)));
    let other = RawSelector::from_tuple(Some(vec![1, 2]), None, Some(vec![0, 2, 9]));
    assert!(matches!(other, Err(KvError::EndNotInPrefix)));
}

#[test]
fn start_and_end_make_a_range() {
    let sel = RawSelector::from_tuple(None, Some(vec![1, 2, 3]), Some(vec![1, 2, 9, 9])).unwrap();
    assert!(matches!(sel, RawSelector::Range { .. }));
    assert_eq!(sel.common_prefix(), vec![1, 2]);
    let equal = RawSelector::from_tuple(None, Some(vec![4]), Some(vec![4]));
    assert!(equal.is_ok());
    let backwards = RawSelector::from_tuple(None, Some(vec![1, 3]), Some(vec![1, 2, 9]));
    assert!(matches!(backwards, Err(KvError::StartAfterEnd)));
    let longer_start = RawSelector::from_tuple(None, Some(vec![1, 2, 0]), Some(vec![1, 2]));
    assert!(matches!(longer_start, Err(KvError::StartAfterEnd)));
}

#[test]
fn start_alone_is_a_single_key_range() {
    let sel = RawSelector::from_tuple(None, Some(vec![5, 6]), None).unwrap();
    assert_eq!(sel.range_start_key(), vec![5, 6]);
    assert_eq!(sel.range_end_key(), vec![5, 6, 0]);
    assert_eq!(sel.common_prefix(), vec![5, 6]);
}

#[test]
fn unlisted_combinations_are_invalid() {
    assert!(matches!(RawSelector::from_tuple(None, None, None), Err(KvError::InvalidRange)));
    assert!(matches!(RawSelector::from_tuple(None, None, Some(vec![1])), Err(KvError::InvalidRange)));
    assert!(matches!(
        RawSelector::from_tuple(Some(vec![1]), Some(vec![1, 2]), Some(vec![1, 3])),
        Err(KvError::InvalidRange)
    ));
}

#[test]
fn cursor_text_is_url_safe_base64_of_the_suffix() {
    let sel = RawSelector::from_tuple(Some(vec![1]), None, None).unwrap();
    assert_eq!(encode_cursor(&sel, &[1, 0xfb, 0xff]).unwrap(), "-_8=");
    assert_eq!(encode_cursor(&sel, &[1, 2]).unwrap(), "Ag==");
}

#[test]
fn cursor_of_key_outside_common_prefix_is_refused() {
    let sel = RawSelector::from_tuple(Some(vec![1]), None, None).unwrap();
    assert!(matches!(encode_cursor(&sel, &[2, 5]), Err(KvError::InvalidBoundaryKey)));
}

#[test]
fn cursor_round_trip_forward_and_backward() {
    let p = users_prefix();
    let sel = RawSelector::from_tuple(Some(p.clone()), None, None).unwrap();
    let k = with(p.clone(), &[0x02, b'a', 0x00]);
    let cursor = encode_cursor(&sel, &k).unwrap();
    let (start, end) = decode_selector_and_cursor(&sel, false, Some(&cursor)).unwrap();
    assert_eq!(start, with(k.clone(), &[0x00]));
    assert_eq!(end, with(p.clone(), &[0xff]));
    let (start, end) = decode_selector_and_cursor(&sel, true, Some(&cursor)).unwrap();
    assert_eq!(start, with(p.clone(), &[0x00]));
    assert_eq!(end, k);
}

#[test]
fn cursor_round_trip_on_a_range() {
    let sel = RawSelector::from_tuple(None, Some(vec![1, 2, 3]), Some(vec![1, 2, 9])).unwrap();
    let k = vec![1u8, 2, 5, 5];
    let cursor = encode_cursor(&sel, &k).unwrap();
    let (start, end) = decode_selector_and_cursor(&sel, false, Some(&cursor)).unwrap();
    assert_eq!(start, vec![1, 2, 5, 5, 0]);
    assert_eq!(end, vec![1, 2, 9]);
}

#[test]
fn no_cursor_scans_the_whole_selector() {
    let sel = RawSelector::from_tuple(None, Some(vec![3]), Some(vec![7])).unwrap();
    assert_eq!(decode_selector_and_cursor(&sel, false, None).unwrap(), (vec![3], vec![7]));
}

#[test]
fn tampered_cursor_is_out_of_bounds() {
    let sel = RawSelector::from_tuple(None, Some(vec![1, 5]), Some(vec![1, 9])).unwrap();
    // suffix [2]: boundary [1, 2] lies before the explicit start
    assert!(matches!(
        decode_selector_and_cursor(&sel, false, Some("Ag==")),
        Err(KvError::CursorOutOfBounds)
    ));
    // suffix [0x0a]: boundary [1, 10] lies after the explicit end
    assert!(matches!(
        decode_selector_and_cursor(&sel, true, Some("Cg==")),
        Err(KvError::CursorOutOfBounds)
    ));
    assert!(matches!(apply_cursor(&sel, true, &[0x0a]), Err(KvError::CursorOutOfBounds)));
    assert!(apply_cursor(&sel, true, &[0x07]).is_ok());
}

#[test]
fn malformed_cursor_is_invalid() {
    let sel = RawSelector::from_tuple(Some(vec![1]), None, None).unwrap();
    assert!(matches!(
        decode_selector_and_cursor(&sel, false, Some("!!!")),
        Err(KvError::InvalidCursor)
    ));
}

#[test]
fn users_prefix_read_of_ten() {
    let p = users_prefix();
    let range = read_range(Some(p.clone()), None, None, 10, false, None).unwrap();
    assert_eq!(
        range,
        ReadRange { start: with(p.clone(), &[0x00]), end: with(p, &[0xff]), limit: 10, reverse: false }
    );
    assert!(check_snapshot_read(&vec![range]).is_ok());
}

#[test]
fn read_range_refusals() {
    assert!(matches!(read_range(Some(vec![1]), None, None, 0, false, None), Err(KvError::ZeroLimit)));
    let long = vec![7u8; 2049];
    assert!(matches!(
        read_range(Some(long), None, None, 1, false, None),
        Err(KvError::ReadKeyTooLarge)
    ));
    let fits = vec![7u8; 2048];
    assert!(read_range(Some(fits), None, None, 1, false, None).is_ok());
}

#[test]
fn snapshot_read_budgets() {
    let r = |limit: u32| ReadRange { start: vec![1], end: vec![2], limit, reverse: false };
    let ten: Vec<ReadRange> = (0..10).map(|_| r(100)).collect();
    assert!(check_snapshot_read(&ten).is_ok());
    let eleven: Vec<ReadRange> = (0..11).map(|_| r(1)).collect();
    assert_eq!(check_snapshot_read(&eleven), Err(KvError::TooManyRanges));
    let over = vec![r(1000), r(1)];
    assert_eq!(check_snapshot_read(&over), Err(KvError::TooManyEntries));
}
