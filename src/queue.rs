use vstd::prelude::*;

use crate::error::KvError;

verus! {

/// The in-flight queue messages of one database: each dequeued message gets a
/// handle that must be finished exactly once.
pub struct QueueHandles {
    pub next_id: u64,
    pub pending: Vec<u64>,
}

impl QueueHandles {
    /// Every pending handle is distinct and below the next one handed out.
    pub open spec fn wf(&self) -> bool {
        &&& self.pending@.no_duplicates()
        &&& forall|i: int| 0 <= i < self.pending@.len() ==> #[trigger] self.pending@[i] < self.next_id
    }

    /// No message in flight.
    pub fn new() -> (r: QueueHandles)
        ensures
            r.wf(),
            r.pending@.len() == 0,
    {
        QueueHandles { next_id: 0, pending: Vec::new() }
    }

    /// Takes what the backend returned for a dequeue. A database already closed
    /// means no message (a benign race during shutdown); a message gets a fresh handle.
    pub fn accept_dequeued(&mut self, db_open: bool, payload: Option<Vec<u8>>) -> (r: Option<
        (Vec<u8>, u64),
    >)
        requires
            old(self).wf(),
            old(self).next_id < u64::MAX,
        ensures
            final(self).wf(),
            !db_open || payload is None ==> r is None && *final(self) == *old(self),
            db_open && payload is Some ==> (r matches Some((p, id)) && Some(p) == payload
                && !old(self).pending@.contains(id) && final(self).pending@ == old(
                self,
            ).pending@.push(id)),
    {
        if !db_open {
            return None;
        }
        match payload {
            None => None,
            Some(p) => {
                let id = self.next_id;
                proof {
                    if old(self).pending@.contains(id) {
                        let i = choose|i: int| 0 <= i < old(self).pending@.len() && old(self).pending@[i] == id;
                        assert(old(self).pending@[i] < old(self).next_id);
                    }
                }
                self.pending.push(id);
                self.next_id = id + 1;
                proof {
                    assert forall|i: int, j: int|
                        0 <= i < self.pending@.len() && 0 <= j < self.pending@.len() && i != j
                        implies self.pending@[i] != self.pending@[j] by {
                        if i < old(self).pending@.len() && j < old(self).pending@.len() {
                            assert(old(self).pending@[i] != old(self).pending@[j]);
                        } else if i < old(self).pending@.len() {
                            assert(old(self).pending@[i] < id);
                        } else {
                            assert(old(self).pending@[j] < id);
                        }
                    }
                }
                Some((p, id))
            },
        }
    }

    /// Finishes a handle; an unknown or already finished one is an error. The
    /// outcome passed on to the backend is the caller's `success` flag.
    pub fn finish(&mut self, id: u64) -> (r: Result<(), KvError>)
        requires
            old(self).wf(),
        ensures
            final(self).wf(),
            final(self).next_id == old(self).next_id,
            r is Ok <==> old(self).pending@.contains(id),
            r is Err ==> r == Err::<(), KvError>(KvError::MessageNotFound) && *final(self) == *old(
                self,
            ),
            forall|x: u64| #[trigger]
                final(self).pending@.contains(x) <==> old(self).pending@.contains(x) && x != id,
    {
        let mut i: usize = 0;
        while i < self.pending.len()
            invariant
                *self == *old(self),
                self.wf(),
                i <= self.pending.len(),
                forall|j: int| 0 <= j < i ==> self.pending@[j] != id,
            decreases self.pending.len() - i,
        {
            if self.pending[i] == id {
                let ghost before = self.pending@;
                self.pending.remove(i);
                proof {
                    assert(self.pending@ == before.remove(i as int));
                    assert(before[i as int] == id);
                    assert(before.no_duplicates());
                    assert forall|x: u64| #[trigger]
                        self.pending@.contains(x) <==> before.contains(x) && x != id by {
                        if before.contains(x) && x != id {
                            let k = choose|k: int| 0 <= k < before.len() && before[k] == x;
                            if k < i {
                                assert(self.pending@[k] == x);
                            } else {
                                assert(self.pending@[k - 1] == x);
                            }
                        }
                        if self.pending@.contains(x) {
                            let k = choose|k: int| 0 <= k < self.pending@.len() && self.pending@[k] == x;
                            let k2 = if k < i { k } else { k + 1 };
                            assert(before[k2] == x);
                            assert(k2 != i);
                            assert(before[k2] != before[i as int]);
                        }
                    }
                    assert forall|a: int, b: int|
                        0 <= a < self.pending@.len() && 0 <= b < self.pending@.len() && a != b
                        implies self.pending@[a] != self.pending@[b] by {
                        let a2 = if a < i { a } else { a + 1 };
                        let b2 = if b < i { b } else { b + 1 };
                        assert(a2 != b2);
                        assert(self.pending@[a] == before[a2]);
                        assert(self.pending@[b] == before[b2]);
                        assert(before[a2] != before[b2]);
                    }
                    assert forall|k: int| 0 <= k < self.pending@.len() implies #[trigger] self.pending@[k] < self.next_id by {
                        let k2 = if k < i { k } else { k + 1 };
                        assert(before[k2] < self.next_id);
                    }
                }
                return Ok(());
            }
            i = i + 1;
        }
        Err(KvError::MessageNotFound)
    }
}

} // verus!
