//! A verified unique-identifier allocator for an identity service, together
//! with the small configuration types the service's storage layer reads.
//!
//! The heart of the crate is [`snowflake::SnowflakeIdBucket`]: an allocator
//! that hands out globally ordered, collision-free 64-bit identifiers,
//! bit-packed from a millisecond timestamp, a (datacenter id, worker id)
//! pair fixed at construction, and a per-millisecond sequence counter.

pub mod clock;
pub mod config;
pub mod snowflake;
