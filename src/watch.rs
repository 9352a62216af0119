use vstd::prelude::*;

use crate::error::KvError;
use crate::read::check_watch_keys;
use crate::limits::{MAX_READ_KEY_SIZE_BYTES, MAX_WATCHED_KEYS};
use crate::write::KvValue;

verus! {

/// A stored entry: its encoded key, its value and the versionstamp of its last write.
#[derive(Debug, Clone, PartialEq, Eq)]
pub struct KvEntry {
    pub key: Vec<u8>,
    pub value: KvValue,
    pub versionstamp: [u8; 10],
}

/// What one poll reports of one watched key.
#[derive(Debug, Clone, PartialEq, Eq)]
pub enum WatchKeyOutput {
    /// The key changed; `None` when it was deleted.
    Changed(Option<KvEntry>),
    Unchanged,
}

/// What ends a wait on the backend's change stream.
pub enum WatchEvent {
    /// The stream produced one output per watched key.
    Next(Vec<WatchKeyOutput>),
    /// The backend stream completed.
    StreamEnded,
    /// The owning database was closed.
    DatabaseClosed,
    /// This watch was closed.
    WatchClosed,
}

/// A change-notification session over a fixed set of keys, with its two
/// cancellation signals: one of the owning database, one of the watch itself.
pub struct Watch {
    pub keys: Vec<Vec<u8>>,
    pub db_cancelled: bool,
    pub cancelled: bool,
    pub ended: bool,
}

impl Watch {
    /// The session still delivers changes.
    pub open spec fn is_live(&self) -> bool {
        !self.db_cancelled && !self.cancelled && !self.ended
    }

    /// Opens a watch over encoded keys: at most the watched-key limit, each no
    /// longer than the read key limit.
    pub fn open(keys: Vec<Vec<u8>>) -> (r: Result<Watch, KvError>)
        ensures
            keys@.len() > MAX_WATCHED_KEYS ==> r == Err::<Watch, KvError>(
                KvError::TooManyWatchedKeys,
            ),
            keys@.len() <= MAX_WATCHED_KEYS && (exists|i: int|
                0 <= i < keys@.len() && (#[trigger] keys@[i])@.len() > MAX_READ_KEY_SIZE_BYTES)
                ==> r == Err::<Watch, KvError>(KvError::ReadKeyTooLarge),
            r matches Ok(w) ==> w.keys == keys && w.is_live(),
            keys@.len() <= MAX_WATCHED_KEYS && (forall|i: int|
                0 <= i < keys@.len() ==> (#[trigger] keys@[i])@.len() <= MAX_READ_KEY_SIZE_BYTES)
                ==> r is Ok,
    {
        match check_watch_keys(&keys) {
            Err(e) => Err(e),
            Ok(()) => Ok(Watch { keys, db_cancelled: false, cancelled: false, ended: false }),
        }
    }

    /// Cancels this watch alone.
    pub fn close(&mut self)
        ensures
            final(self).cancelled,
            final(self).keys == old(self).keys,
            final(self).db_cancelled == old(self).db_cancelled,
            final(self).ended == old(self).ended,
    {
        self.cancelled = true;
    }

    /// Cancels the watch because its owning database closed.
    pub fn close_database(&mut self)
        ensures
            final(self).db_cancelled,
            final(self).keys == old(self).keys,
            final(self).cancelled == old(self).cancelled,
            final(self).ended == old(self).ended,
    {
        self.db_cancelled = true;
    }

    /// Decides what a poll returns once its wait ends: the per-key outputs while
    /// the session is live, `None` ("stream ended") once either cancellation has
    /// fired or the stream has completed, and from then on.
    pub fn on_event(&mut self, event: WatchEvent) -> (r: Option<Vec<WatchKeyOutput>>)
        ensures
            final(self).keys == old(self).keys,
            !old(self).is_live() ==> r is None && *final(self) == *old(self),
            old(self).is_live() ==> match event {
                WatchEvent::Next(outputs) => r == Some(outputs) && *final(self) == *old(self),
                WatchEvent::StreamEnded => r is None && final(self).ended
                    && final(self).cancelled == old(self).cancelled
                    && final(self).db_cancelled == old(self).db_cancelled,
                WatchEvent::DatabaseClosed => r is None && final(self).db_cancelled
                    && final(self).cancelled == old(self).cancelled
                    && final(self).ended == old(self).ended,
                WatchEvent::WatchClosed => r is None && final(self).cancelled
                    && final(self).db_cancelled == old(self).db_cancelled
                    && final(self).ended == old(self).ended,
            },
    {
        if self.db_cancelled || self.cancelled || self.ended {
            return None;
        }
        match event {
            WatchEvent::Next(outputs) => Some(outputs),
            WatchEvent::StreamEnded => {
                self.ended = true;
                None
            },
            WatchEvent::DatabaseClosed => {
                self.db_cancelled = true;
                None
            },
            WatchEvent::WatchClosed => {
                self.cancelled = true;
                None
            },
        }
    }
}

} // verus!
