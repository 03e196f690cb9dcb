//! Session layer: sessions, offset tracking and resume.

pub mod offset_tracker;
pub mod session;
pub mod resume;

pub use offset_tracker::{OffsetTracker, ResumeDecision, TopicOffsets, decide};
pub use resume::{ResumeManager, ResumeOutcome};
pub use session::{ClientId, Session, SessionId, SessionState};
