//! Error types: rejection reasons by protocol layer and the top-level
//! `RiftError`.

use vstd::prelude::*;
use vstd::std_specs::convert::FromSpecImpl;

verus! {

#[verifier::external_type_specification]
#[verifier::external_body]
pub struct ExIoError(std::io::Error);

#[verifier::external_type_specification]
#[verifier::external_body]
pub struct ExSerdeJsonError(serde_json::Error);

/// Reasons a frame may be rejected during decode or validation.
#[derive(Debug)]
pub enum FrameReject {
    /// The client's protocol version is not supported by this server.
    ProtocolVersionUnsupported { client: u16, server: u16 },
    /// The frame is structurally invalid or contains illegal values.
    FrameInvalid(String),
    /// The client requested a codec the server does not support.
    CodecUnsupported(String),
    /// The payload exceeds the server-configured maximum.
    PayloadTooLarge { actual: usize, max: usize },
    /// A required protocol field was absent.
    RequiredFieldMissing(&'static str),
    /// The frame schema does not match the expected schema.
    SchemaMismatch(String),
    /// The frame violates the message ordering contract.
    OrderViolation(String),
}

/// Reasons a session or resume attempt may fail.
#[derive(Debug)]
pub enum SessionReject {
    /// The requested session does not exist.
    NotFound(String),
    /// The session has expired.
    Expired,
    /// The client's epoch does not match the server's.
    Conflict { incoming: u32, current: u32 },
    /// The resume attempt was rejected.
    ResumeRejected(String),
    /// The requested replay offset is no longer available.
    ReplayOffsetExpired { topic: String, requested: i64 },
    /// A full snapshot is required before continuing.
    SnapshotRequired(String),
}

/// Reasons a topic operation may fail.
#[derive(Debug)]
pub enum TopicReject {
    /// The topic does not exist.
    NotFound(String),
    /// The topic has been closed and no longer accepts messages.
    Closed(String),
    /// The topic is currently overloaded.
    Overloaded(String),
    /// The topic has reached its maximum number of subscribers.
    SubscriberLimit(String),
    /// The topic has reached its maximum number of publishers.
    PublisherLimit(String),
    /// The caller does not have permission to access this topic.
    Forbidden(String),
    /// The topic is rate-limited.
    RateLimited(String),
    /// The topic name is invalid.
    InvalidName(String),
}

/// Reasons a message may be rejected.
#[derive(Debug)]
pub enum MessageReject {
    /// A message with this dedupe key was already processed.
    Duplicate(String),
    /// The message has expired.
    Expired,
    /// The message was rejected by application logic.
    Rejected(String),
    /// The message exceeds the maximum size.
    TooLarge { actual: usize, max: usize },
    /// The acknowledgement for this message timed out.
    AckTimeout(String),
    /// Delivery to at least one subscriber failed.
    DeliveryFailed(String),
}

/// Authentication and authorization failures.
#[derive(Debug)]
pub enum AuthReject {
    /// Authentication is required but was not provided.
    Required,
    /// The provided authentication is invalid.
    Invalid(String),
    /// The authentication has expired.
    Expired,
    /// The authentication has been revoked.
    Revoked,
    /// The authenticated principal lacks permission.
    Denied(String),
}

/// System-level failures.
#[derive(Debug)]
pub enum SystemReject {
    /// The system is currently overloaded.
    Overloaded,
    /// The system is under maintenance.
    Maintenance,
    /// The responsible shard has moved to a different node.
    ShardMoved(String),
    /// This region is currently unavailable.
    RegionUnavailable(String),
    /// An internal error occurred.
    Internal(String),
}

/// Invalid server configuration.
#[derive(Debug)]
pub enum ConfigError {
    /// A configuration field has an invalid value.
    Invalid {
        /// The name of the invalid field.
        field: &'static str,
        /// A human-readable explanation.
        message: String,
    },
}

/// An arbitrary lower-level error, kept as its message.
#[derive(Debug)]
pub struct BoxedStdError(pub String);

/// Top-level error for all Rift/1 operations: the layer-specific
/// rejections, configuration and I/O errors, and lower-level errors of
/// the codecs and the transport.
#[derive(Debug)]
pub enum RiftError {
    /// Frame-level error.
    Frame(FrameReject),
    /// Session-level error.
    Session(SessionReject),
    /// Topic-level error.
    Topic(TopicReject),
    /// Message-level error.
    Message(MessageReject),
    /// Authentication error.
    Auth(AuthReject),
    /// System-level error.
    System(SystemReject),
    /// Configuration error.
    Config(ConfigError),
    /// I/O error from the operating system or transport.
    Io(std::io::Error),
    /// JSON serialization or deserialization error.
    SerdeJson(BoxedStdError),
    /// CBOR serialization error.
    Cbor(BoxedStdError),
    /// CBOR deserialization error.
    CborDe(BoxedStdError),
    /// WebSocket transport error.
    WebSocket(BoxedStdError),
    /// Catch-all for other error types.
    Other(BoxedStdError),
}

/// Result alias used throughout the crate.
pub type Result<T> = core::result::Result<T, RiftError>;

impl From<FrameReject> for RiftError {
    /// Wraps the error as `RiftError::Frame`.
    fn from(e: FrameReject) -> (r: RiftError)
        ensures
            r == RiftError::Frame(e),
    {
        RiftError::Frame(e)
    }
}

impl FromSpecImpl<FrameReject> for RiftError {
    open spec fn obeys_from_spec() -> bool {
        true
    }

    open spec fn from_spec(e: FrameReject) -> RiftError {
        RiftError::Frame(e)
    }
}

impl From<SessionReject> for RiftError {
    /// Wraps the error as `RiftError::Session`.
    fn from(e: SessionReject) -> (r: RiftError)
        ensures
            r == RiftError::Session(e),
    {
        RiftError::Session(e)
    }
}

impl FromSpecImpl<SessionReject> for RiftError {
    open spec fn obeys_from_spec() -> bool {
        true
    }

    open spec fn from_spec(e: SessionReject) -> RiftError {
        RiftError::Session(e)
    }
}

impl From<TopicReject> for RiftError {
    /// Wraps the error as `RiftError::Topic`.
    fn from(e: TopicReject) -> (r: RiftError)
        ensures
            r == RiftError::Topic(e),
    {
        RiftError::Topic(e)
    }
}

impl FromSpecImpl<TopicReject> for RiftError {
    open spec fn obeys_from_spec() -> bool {
        true
    }

    open spec fn from_spec(e: TopicReject) -> RiftError {
        RiftError::Topic(e)
    }
}

impl From<MessageReject> for RiftError {
    /// Wraps the error as `RiftError::Message`.
    fn from(e: MessageReject) -> (r: RiftError)
        ensures
            r == RiftError::Message(e),
    {
        RiftError::Message(e)
    }
}

impl FromSpecImpl<MessageReject> for RiftError {
    open spec fn obeys_from_spec() -> bool {
        true
    }

    open spec fn from_spec(e: MessageReject) -> RiftError {
        RiftError::Message(e)
    }
}

impl From<AuthReject> for RiftError {
    /// Wraps the error as `RiftError::Auth`.
    fn from(e: AuthReject) -> (r: RiftError)
        ensures
            r == RiftError::Auth(e),
    {
        RiftError::Auth(e)
    }
}

impl FromSpecImpl<AuthReject> for RiftError {
    open spec fn obeys_from_spec() -> bool {
        true
    }

    open spec fn from_spec(e: AuthReject) -> RiftError {
        RiftError::Auth(e)
    }
}

impl From<SystemReject> for RiftError {
    /// Wraps the error as `RiftError::System`.
    fn from(e: SystemReject) -> (r: RiftError)
        ensures
            r == RiftError::System(e),
    {
        RiftError::System(e)
    }
}

impl FromSpecImpl<SystemReject> for RiftError {
    open spec fn obeys_from_spec() -> bool {
        true
    }

    open spec fn from_spec(e: SystemReject) -> RiftError {
        RiftError::System(e)
    }
}

impl From<ConfigError> for RiftError {
    /// Wraps the error as `RiftError::Config`.
    fn from(e: ConfigError) -> (r: RiftError)
        ensures
            r == RiftError::Config(e),
    {
        RiftError::Config(e)
    }
}

impl FromSpecImpl<ConfigError> for RiftError {
    open spec fn obeys_from_spec() -> bool {
        true
    }

    open spec fn from_spec(e: ConfigError) -> RiftError {
        RiftError::Config(e)
    }
}

impl From<std::io::Error> for RiftError {
    /// Wraps the error as `RiftError::Io`.
    fn from(e: std::io::Error) -> (r: RiftError)
        ensures
            r == RiftError::Io(e),
    {
        RiftError::Io(e)
    }
}

impl FromSpecImpl<std::io::Error> for RiftError {
    open spec fn obeys_from_spec() -> bool {
        true
    }

    open spec fn from_spec(e: std::io::Error) -> RiftError {
        RiftError::Io(e)
    }
}

impl RiftError {
    /// Wrap an arbitrary error into `RiftError::Other`, keeping its
    /// message.
    pub fn other<E: std::error::Error + Send + Sync + 'static>(e: E) -> (r: Self)
        ensures
            r matches RiftError::Other(b) && vstd::string::to_string_from_display_ensures::<E>(
                &e,
                b.0,
            ),
    {
        RiftError::Other(BoxedStdError(e.to_string()))
    }

    /// Construct from a `serde_json::Error`, keeping its message.
    pub fn from_serde_json(e: serde_json::Error) -> (r: Self)
        ensures
            r matches RiftError::SerdeJson(b)
                && vstd::string::to_string_from_display_ensures::<serde_json::Error>(&e, b.0),
    {
        RiftError::SerdeJson(BoxedStdError(e.to_string()))
    }

    /// Construct from a CBOR serialization error, keeping its message.
    pub fn from_cbor_ser<E: std::error::Error + Send + Sync + 'static>(e: E) -> (r: Self)
        ensures
            r matches RiftError::Cbor(b) && vstd::string::to_string_from_display_ensures::<E>(
                &e,
                b.0,
            ),
    {
        RiftError::Cbor(BoxedStdError(e.to_string()))
    }

    /// Construct from a WebSocket transport error, keeping its message.
    pub fn from_websocket<E: std::error::Error + Send + Sync + 'static>(e: E) -> (r: Self)
        ensures
            r matches RiftError::WebSocket(b) && vstd::string::to_string_from_display_ensures::<E>(
                &e,
                b.0,
            ),
    {
        RiftError::WebSocket(BoxedStdError(e.to_string()))
    }

    /// Construct from a CBOR deserialization error, keeping its message.
    pub fn from_cbor_de<E: std::error::Error + Send + Sync + 'static>(e: E) -> (r: Self)
        ensures
            r matches RiftError::CborDe(b) && vstd::string::to_string_from_display_ensures::<E>(
                &e,
                b.0,
            ),
    {
        RiftError::CborDe(BoxedStdError(e.to_string()))
    }
}

} // verus!
