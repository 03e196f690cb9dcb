//! Hello / Welcome / Ready handshake.

use std::collections::BTreeMap;
use vstd::prelude::*;
use crate::frame::types::Codec;
use crate::protocol::version::{PROTOCOL_NAME, encoded_version};

verus! {

/// Client hello.
#[derive(Debug, Clone)]
pub struct Hello {
    /// Protocol name, `"rift"`.
    pub protocol: String,
    /// Protocol version, `major << 8 | minor`.
    pub version: u16,
    /// Long-lived client identity.
    pub client_id: Option<String>,
    /// Session to resume, if any.
    pub session_id: Option<String>,
    /// Epoch of the session to resume.
    pub epoch: Option<u32>,
    /// Codecs the client accepts, in order of preference.
    pub codecs: Vec<Codec>,
    /// Compression schemes the client accepts.
    pub compression: Vec<String>,
    /// Authentication modes the client offers.
    pub auth_modes: Vec<AuthMode>,
    /// Last processed offset per topic, for resume.
    pub last_offsets: BTreeMap<String, i64>,
    /// Client clock (ms since epoch).
    pub client_clock: Option<i64>,
    /// SDK identification.
    pub sdk: Option<SdkInfo>,
    /// Feature flags the client supports.
    pub features: Vec<String>,
}

impl Default for Hello {
    /// An empty hello: empty strings and lists, version 0, no optional
    /// field.
    fn default() -> (r: Hello)
        ensures
            r.protocol@ == Seq::<char>::empty(),
            r.version == 0,
            r.client_id is None,
            r.session_id is None,
            r.epoch is None,
            r.codecs@ == Seq::<Codec>::empty(),
            r.compression@.len() == 0,
            r.auth_modes@ == Seq::<AuthMode>::empty(),
            r.last_offsets@ == Map::<String, i64>::empty(),
            r.client_clock is None,
            r.sdk is None,
            r.features@.len() == 0,
    {
        Hello {
            protocol: String::new(),
            version: 0,
            client_id: None,
            session_id: None,
            epoch: None,
            codecs: Vec::new(),
            compression: Vec::new(),
            auth_modes: Vec::new(),
            last_offsets: BTreeMap::new(),
            client_clock: None,
            sdk: None,
            features: Vec::new(),
        }
    }
}

impl Hello {
    /// A hello for the current protocol version offering `codecs`, every
    /// other field empty.
    pub fn new(codecs: Vec<Codec>) -> (r: Hello)
        ensures
            r.protocol@ == PROTOCOL_NAME@,
            r.protocol@ == "rift"@,
            r.version == 0x0100,
            r.codecs@ == codecs@,
            r.client_id is None,
            r.session_id is None,
            r.epoch is None,
            r.compression@.len() == 0,
            r.auth_modes@ == Seq::<AuthMode>::empty(),
            r.last_offsets@ == Map::<String, i64>::empty(),
            r.client_clock is None,
            r.sdk is None,
            r.features@.len() == 0,
    {
        let mut h = Hello::default();
        h.protocol = PROTOCOL_NAME.to_owned();
        h.version = encoded_version();
        h.codecs = codecs;
        h
    }
}

/// Authentication mode offered by the client or accepted by the server.
#[derive(Debug, Clone, Copy, PartialEq, Eq, Hash, Structural)]
pub enum AuthMode {
    /// Bearer token.
    Bearer,
    /// Cookie.
    Cookie,
    /// Mutual TLS.
    Mtls,
    /// Signed challenge.
    SignedChallenge,
    /// No authentication.
    Anonymous,
}

/// The snake-case name of each authentication mode.
pub open spec fn auth_mode_name(m: AuthMode) -> Seq<char> {
    match m {
        AuthMode::Bearer => "bearer"@,
        AuthMode::Cookie => "cookie"@,
        AuthMode::Mtls => "mtls"@,
        AuthMode::SignedChallenge => "signed_challenge"@,
        AuthMode::Anonymous => "anonymous"@,
    }
}

impl AuthMode {
    /// The snake-case name of this mode.
    pub fn name(self) -> (r: &'static str)
        ensures
            r@ == auth_mode_name(self),
    {
        proof {
            reveal_strlit("bearer");
            reveal_strlit("cookie");
            reveal_strlit("mtls");
            reveal_strlit("signed_challenge");
            reveal_strlit("anonymous");
        }
        match self {
            AuthMode::Bearer => "bearer",
            AuthMode::Cookie => "cookie",
            AuthMode::Mtls => "mtls",
            AuthMode::SignedChallenge => "signed_challenge",
            AuthMode::Anonymous => "anonymous",
        }
    }
}

/// SDK identification (`hello.sdk`).
#[derive(Debug, Clone)]
pub struct SdkInfo {
    /// SDK name.
    pub name: String,
    /// SDK version.
    pub version: String,
}

impl Default for SdkInfo {
    /// Empty name and version.
    fn default() -> (r: SdkInfo)
        ensures
            r.name@ == Seq::<char>::empty(),
            r.version@ == Seq::<char>::empty(),
    {
        SdkInfo { name: String::new(), version: String::new() }
    }
}

/// Server welcome, emitted after authentication.
#[derive(Debug, Clone)]
pub struct Welcome {
    /// Session id.
    pub session_id: String,
    /// Session epoch.
    pub epoch: u32,
    /// Codec chosen for the connection.
    pub negotiated_codec: Codec,
    /// Compression chosen for the connection.
    pub negotiated_compression: Option<String>,
    /// Server time (ms since epoch).
    pub server_time: i64,
    /// How long the session can be resumed, in milliseconds.
    pub resume_window_ms: u32,
    /// Features enabled for the connection.
    pub features: Vec<String>,
}

/// Result of an attempted resume.
#[derive(Debug, Clone, Copy, PartialEq, Eq, Structural)]
pub enum ResumeResult {
    /// Fully resumed.
    Resumed,
    /// Resumed for some topics.
    Partial,
    /// Rejected.
    Rejected,
    /// The session expired.
    Expired,
    /// The session was taken over.
    Conflict,
}

/// Server `ready`.
#[derive(Debug, Clone)]
pub struct Ready {
    /// Session id.
    pub session_id: String,
    /// Session epoch.
    pub epoch: u32,
    /// Ping interval, ms.
    pub ping_interval_ms: u32,
    /// Pong timeout, ms.
    pub pong_timeout_ms: u32,
    /// Missed pongs before the connection is closed.
    pub max_missed_pongs: u32,
    /// Idle timeout, ms.
    pub idle_timeout_ms: u32,
    /// Heartbeat jitter, ms.
    pub jitter_ms: u32,
    /// Maximum payload size, bytes.
    pub max_payload_bytes: u32,
    /// Maximum topic subscriptions per connection.
    pub max_topics_per_connection: u32,
    /// Maximum send queue size, bytes.
    pub max_send_queue_bytes: u32,
    /// Server time (ms since epoch).
    pub server_time: i64,
}

} // verus!
