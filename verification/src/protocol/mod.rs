//! Protocol layer: version, close codes, error codes, heartbeat and the
//! hello / welcome / ready handshake.

pub mod close;
pub mod error_code;
pub mod heartbeat;
pub mod hello;
pub mod version;

pub use close::CloseCode;
pub use error_code::ErrorCode;
pub use heartbeat::HeartbeatPolicy;
pub use hello::{AuthMode, Hello, Ready, ResumeResult, SdkInfo, Welcome};
