//! Request validation and query planning for a transactional key-value store:
//! range selectors, pagination cursors, atomic-write budgets, watches and
//! queue-message handles, all over encoded key bytes.
pub mod bytes;
pub mod convert;
pub mod cursor;
pub mod error;
pub mod excess_buf;
pub mod limits;
pub mod queue;
pub mod read;
pub mod selector;
pub mod versionstamp;
pub mod watch;
pub mod write;
