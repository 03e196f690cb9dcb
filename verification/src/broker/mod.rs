//! Broker components: per-topic offsets, deduplication and fanout.

pub mod dedupe;
pub mod fanout;
pub mod offset_store;

pub use dedupe::DedupeStore;
pub use fanout::{
    ConnectionSink, FanoutEngine, FanoutError, FanoutSink, SubscribeIntent, Subscription,
    SubscriptionId, new_sink_id,
};
pub use offset_store::OffsetStore;
