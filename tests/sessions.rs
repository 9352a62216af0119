use deno_kv::convert::{OptionNull, SerdeWrapper, TransparentWrapper, TupleArray, VecArray};
use deno_kv::error::KvError;
use deno_kv::excess_buf::ExcessBuf;
use deno_kv::queue::QueueHandles;
use deno_kv::watch::{KvEntry, Watch, WatchEvent, WatchKeyOutput};
use deno_kv::write::KvValue;

#[test]
fn first_poll_of_untouched_key_is_unchanged() {
    let mut w = Watch::open(vec![vec![2, b'k', 0]]).unwrap();
    let out = w.on_event(WatchEvent::Next(vec![WatchKeyOutput::Unchanged]));
    assert_eq!(out, Some(vec![WatchKeyOutput::Unchanged]));
}

#[test]
fn poll_after_write_reports_the_entry() {
    let mut w = Watch::open(vec![vec![2, b'k', 0]]).unwrap();
    let entry = KvEntry { key: vec![2, b'k', 0], value: KvValue::Bytes(vec![b'x']), versionstamp: [0; 10] };
    let out = w.on_event(WatchEvent::Next(vec![WatchKeyOutput::Changed(Some(entry.clone()))]));
    assert_eq!(out, Some(vec![WatchKeyOutput::Changed(Some(entry))]));
}

#[test]
fn cancelled_watch_ends_the_stream() {
    let mut w = Watch::open(vec![vec![1]]).unwrap();
    w.close();
    assert_eq!(w.on_event(WatchEvent::Next(vec![WatchKeyOutput::Unchanged])), None);
    let mut d = Watch::open(vec![vec![1]]).unwrap();
    assert_eq!(d.on_event(WatchEvent::DatabaseClosed), None);
    assert_eq!(d.on_event(WatchEvent::Next(vec![WatchKeyOutput::Unchanged])), None);
    let mut e = Watch::open(vec![vec![1]]).unwrap();
    assert_eq!(e.on_event(WatchEvent::StreamEnded), None);
    assert_eq!(e.on_event(WatchEvent::Next(vec![WatchKeyOutput::Unchanged])), None);
    let mut c = Watch::open(vec![vec![1]]).unwrap();
    c.close_database();
    assert_eq!(c.on_event(WatchEvent::Next(vec![WatchKeyOutput::Unchanged])), None);
}

#[test]
fn watch_key_limits() {
    let ten: Vec<Vec<u8>> = (0..10).map(|i| vec![i as u8]).collect();
    assert!(Watch::open(ten).is_ok());
    let eleven: Vec<Vec<u8>> = (0..11).map(|i| vec![i as u8]).collect();
    assert!(matches!(Watch::open(eleven), Err(KvError::TooManyWatchedKeys)));
    assert!(matches!(Watch::open(vec![vec![0u8; 2050]]), Err(KvError::ReadKeyTooLarge)));
    assert!(Watch::open(vec![vec![0u8; 2049]]).is_ok());
}

#[test]
fn dequeued_message_is_finished_once() {
    let mut q = QueueHandles::new();
    let (payload, id) = q.accept_dequeued(true, Some(vec![1, 2, 3])).unwrap();
    assert_eq!(payload, vec![1, 2, 3]);
    assert_eq!(q.finish(id), Ok(()));
    assert_eq!(q.finish(id), Err(KvError::MessageNotFound));
    assert!(q.accept_dequeued(true, None).is_none());
}

#[test]
fn dequeue_on_closed_database_is_no_message() {
    let mut q = QueueHandles::new();
    assert!(q.accept_dequeued(false, Some(vec![1])).is_none());
    assert!(q.pending.is_empty());
    assert_eq!(q.finish(0), Err(KvError::MessageNotFound));
}

#[test]
fn handles_are_distinct() {
    let mut q = QueueHandles::new();
    let (_, a) = q.accept_dequeued(true, Some(vec![1])).unwrap();
    let (_, b) = q.accept_dequeued(true, Some(vec![2])).unwrap();
    assert_ne!(a, b);
    assert_eq!(q.finish(b), Ok(()));
    assert_eq!(q.finish(a), Ok(()));
}

#[test]
fn excess_buf_consumes_from_the_front() {
    let mut b = ExcessBuf::new();
    assert!(b.as_slice().is_empty());
    b.extend_from_slice(&[1, 2, 3, 4]);
    assert!(b.consume(1));
    assert_eq!(b.as_slice(), &[2, 3, 4]);
    assert!(b.consume(3));
    assert!(b.as_slice().is_empty());
    assert!(!b.consume(1));
    assert_eq!(b.as_slice(), &[1, 2, 3, 4]);
}

#[test]
fn wrappers_convert_both_ways() {
    let o: OptionNull<u8> = Some(3u8).into();
    assert_eq!(o, OptionNull(Some(3)));
    let back: Option<u8> = o.into();
    assert_eq!(back, Some(3));
    let t: TupleArray<(u8, bool)> = (1u8, true).into();
    assert_eq!(t.0, (1, true));
    let v: VecArray<u8> = vec![1u8, 2].into();
    assert_eq!(v.0, vec![1, 2]);
    let s = SerdeWrapper::from_inner(7u32);
    assert_eq!(s.into_inner(), 7);
}
