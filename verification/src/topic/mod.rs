//! Topic layer: profiles, retention and ordering policies.

pub mod log;
pub mod ordering;
pub mod profile;
pub mod retention;

pub use ordering::OrderingPolicy;
pub use profile::TopicProfile;
pub use retention::RetentionPolicy;
