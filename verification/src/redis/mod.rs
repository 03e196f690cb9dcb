//! The computing side of the Redis backend: the key space, the commands
//! that enforce a log's retention, the TTLs handed to Redis, and the
//! record a snapshot is stored as. The connections live outside the
//! library.

pub mod keys;
pub mod retention;
pub mod snapshot;
