//! The topic actor's decisions: publishing a frame on a topic, and the
//! topic's subscriber table. The actor's channel loop and the spawned
//! deliveries live outside the library.

pub mod topic_actor;

pub use topic_actor::{PublishOutcome, TopicActor, TopicSubscribers, publish_step};
