//! Rift/1 realtime protocol: frames, protocol constants, storage key
//! encodings, flow control, sessions and the in-memory broker stores.

pub mod frame;
pub mod storage;
pub mod protocol;
pub mod time;
pub mod flow;
pub mod error;
pub mod session;
pub mod broker;
pub mod topic;
pub mod config;
pub mod metrics;
pub mod trace;
pub mod payload;
pub mod codec;
pub mod message;
pub mod handle;
pub mod text;
pub mod redis;
pub mod actor;
