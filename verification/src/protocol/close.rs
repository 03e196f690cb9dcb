//! Close codes used when ending a connection.

use vstd::prelude::*;

verus! {

/// Close codes used when ending a Rift/1 connection.
#[derive(Debug, Clone, Copy, PartialEq, Eq, Hash, Structural)]
pub enum CloseCode {
    /// Normal closure. Code 1000.
    Normal,
    /// Server is draining connections. Code 1001.
    Draining,
    /// Protocol violation. Code 1002.
    ProtocolError,
    /// No common codec. Code 1003.
    UnsupportedCodec,
    /// Authentication failed. Code 1004.
    AuthFailed,
    /// Authentication expired. Code 1005.
    AuthExpired,
    /// Permission revoked. Code 1006.
    PermissionRevoked,
    /// Session taken over elsewhere. Code 1007.
    SessionConflict,
    /// Rate limit exceeded. Code 1008.
    RateLimited,
    /// Payload above the limit. Code 1009.
    PayloadTooLarge,
    /// Consumer too slow. Code 1010.
    SlowConsumer,
    /// Server overloaded. Code 1011.
    ServerOverloaded,
    /// Shard moved to another node. Code 1012.
    ShardMoved,
    /// Connection idle too long. Code 1013.
    IdleTimeout,
    /// Client must upgrade. Code 1014.
    ClientUpgradeRequired,
    /// Policy violation. Code 1015.
    PolicyViolation,
}

/// The numeric value of each close code, 1000 through 1015.
pub open spec fn close_code_value(c: CloseCode) -> u16 {
    match c {
        CloseCode::Normal => 1000u16,
        CloseCode::Draining => 1001u16,
        CloseCode::ProtocolError => 1002u16,
        CloseCode::UnsupportedCodec => 1003u16,
        CloseCode::AuthFailed => 1004u16,
        CloseCode::AuthExpired => 1005u16,
        CloseCode::PermissionRevoked => 1006u16,
        CloseCode::SessionConflict => 1007u16,
        CloseCode::RateLimited => 1008u16,
        CloseCode::PayloadTooLarge => 1009u16,
        CloseCode::SlowConsumer => 1010u16,
        CloseCode::ServerOverloaded => 1011u16,
        CloseCode::ShardMoved => 1012u16,
        CloseCode::IdleTimeout => 1013u16,
        CloseCode::ClientUpgradeRequired => 1014u16,
        CloseCode::PolicyViolation => 1015u16,
    }
}

/// The close code with value `v`, if any.
pub open spec fn close_code_of(v: u16) -> Option<CloseCode> {
    if v == 1000u16 {
        Some(CloseCode::Normal)
    } else if v == 1001u16 {
        Some(CloseCode::Draining)
    } else if v == 1002u16 {
        Some(CloseCode::ProtocolError)
    } else if v == 1003u16 {
        Some(CloseCode::UnsupportedCodec)
    } else if v == 1004u16 {
        Some(CloseCode::AuthFailed)
    } else if v == 1005u16 {
        Some(CloseCode::AuthExpired)
    } else if v == 1006u16 {
        Some(CloseCode::PermissionRevoked)
    } else if v == 1007u16 {
        Some(CloseCode::SessionConflict)
    } else if v == 1008u16 {
        Some(CloseCode::RateLimited)
    } else if v == 1009u16 {
        Some(CloseCode::PayloadTooLarge)
    } else if v == 1010u16 {
        Some(CloseCode::SlowConsumer)
    } else if v == 1011u16 {
        Some(CloseCode::ServerOverloaded)
    } else if v == 1012u16 {
        Some(CloseCode::ShardMoved)
    } else if v == 1013u16 {
        Some(CloseCode::IdleTimeout)
    } else if v == 1014u16 {
        Some(CloseCode::ClientUpgradeRequired)
    } else if v == 1015u16 {
        Some(CloseCode::PolicyViolation)
    } else {
        None
    }
}

/// The snake-case name of each close code.
pub open spec fn close_code_name(c: CloseCode) -> Seq<char> {
    match c {
        CloseCode::Normal => "normal"@,
        CloseCode::Draining => "draining"@,
        CloseCode::ProtocolError => "protocol_error"@,
        CloseCode::UnsupportedCodec => "unsupported_codec"@,
        CloseCode::AuthFailed => "auth_failed"@,
        CloseCode::AuthExpired => "auth_expired"@,
        CloseCode::PermissionRevoked => "permission_revoked"@,
        CloseCode::SessionConflict => "session_conflict"@,
        CloseCode::RateLimited => "rate_limited"@,
        CloseCode::PayloadTooLarge => "payload_too_large"@,
        CloseCode::SlowConsumer => "slow_consumer"@,
        CloseCode::ServerOverloaded => "server_overloaded"@,
        CloseCode::ShardMoved => "shard_moved"@,
        CloseCode::IdleTimeout => "idle_timeout"@,
        CloseCode::ClientUpgradeRequired => "client_upgrade_required"@,
        CloseCode::PolicyViolation => "policy_violation"@,
    }
}

impl CloseCode {
    /// The close code with value `v`; `None` outside 1000..=1015.
    pub fn from_u16(v: u16) -> (r: Option<CloseCode>)
        ensures
            r == close_code_of(v),
            r is Some <==> 1000 <= v <= 1015,
    {
        match v {
            1000u16 => Some(CloseCode::Normal),
            1001u16 => Some(CloseCode::Draining),
            1002u16 => Some(CloseCode::ProtocolError),
            1003u16 => Some(CloseCode::UnsupportedCodec),
            1004u16 => Some(CloseCode::AuthFailed),
            1005u16 => Some(CloseCode::AuthExpired),
            1006u16 => Some(CloseCode::PermissionRevoked),
            1007u16 => Some(CloseCode::SessionConflict),
            1008u16 => Some(CloseCode::RateLimited),
            1009u16 => Some(CloseCode::PayloadTooLarge),
            1010u16 => Some(CloseCode::SlowConsumer),
            1011u16 => Some(CloseCode::ServerOverloaded),
            1012u16 => Some(CloseCode::ShardMoved),
            1013u16 => Some(CloseCode::IdleTimeout),
            1014u16 => Some(CloseCode::ClientUpgradeRequired),
            1015u16 => Some(CloseCode::PolicyViolation),
            _ => None,
        }
    }

    /// The numeric value of this close code.
    pub fn as_u16(self) -> (r: u16)
        ensures
            r == close_code_value(self),
            1000 <= r <= 1015,
    {
        match self {
            CloseCode::Normal => 1000u16,
            CloseCode::Draining => 1001u16,
            CloseCode::ProtocolError => 1002u16,
            CloseCode::UnsupportedCodec => 1003u16,
            CloseCode::AuthFailed => 1004u16,
            CloseCode::AuthExpired => 1005u16,
            CloseCode::PermissionRevoked => 1006u16,
            CloseCode::SessionConflict => 1007u16,
            CloseCode::RateLimited => 1008u16,
            CloseCode::PayloadTooLarge => 1009u16,
            CloseCode::SlowConsumer => 1010u16,
            CloseCode::ServerOverloaded => 1011u16,
            CloseCode::ShardMoved => 1012u16,
            CloseCode::IdleTimeout => 1013u16,
            CloseCode::ClientUpgradeRequired => 1014u16,
            CloseCode::PolicyViolation => 1015u16,
        }
    }

    /// The snake-case name of this close code.
    pub fn name(self) -> (r: &'static str)
        ensures
            r@ == close_code_name(self),
    {
        proof {
            reveal_strlit("normal");
            reveal_strlit("draining");
            reveal_strlit("protocol_error");
            reveal_strlit("unsupported_codec");
            reveal_strlit("auth_failed");
            reveal_strlit("auth_expired");
            reveal_strlit("permission_revoked");
            reveal_strlit("session_conflict");
            reveal_strlit("rate_limited");
            reveal_strlit("payload_too_large");
            reveal_strlit("slow_consumer");
            reveal_strlit("server_overloaded");
            reveal_strlit("shard_moved");
            reveal_strlit("idle_timeout");
            reveal_strlit("client_upgrade_required");
            reveal_strlit("policy_violation");
        }
        match self {
            CloseCode::Normal => "normal",
            CloseCode::Draining => "draining",
            CloseCode::ProtocolError => "protocol_error",
            CloseCode::UnsupportedCodec => "unsupported_codec",
            CloseCode::AuthFailed => "auth_failed",
            CloseCode::AuthExpired => "auth_expired",
            CloseCode::PermissionRevoked => "permission_revoked",
            CloseCode::SessionConflict => "session_conflict",
            CloseCode::RateLimited => "rate_limited",
            CloseCode::PayloadTooLarge => "payload_too_large",
            CloseCode::SlowConsumer => "slow_consumer",
            CloseCode::ServerOverloaded => "server_overloaded",
            CloseCode::ShardMoved => "shard_moved",
            CloseCode::IdleTimeout => "idle_timeout",
            CloseCode::ClientUpgradeRequired => "client_upgrade_required",
            CloseCode::PolicyViolation => "policy_violation",
        }
    }
}

/// Decoding the value of a close code gives that code back; a value
/// decodes exactly when it is the value of some code.
pub proof fn lemma_close_code_round_trip(c: CloseCode, v: u16)
    ensures
        close_code_of(close_code_value(c)) == Some(c),
        close_code_of(v) matches Some(d) ==> close_code_value(d) == v,
{
}

/// A non-empty name made of lower-case ASCII letters and underscores.
pub open spec fn is_snake_name(s: Seq<char>) -> bool {
    &&& s.len() > 0
    &&& forall|i: int| 0 <= i < s.len() ==> ('a' <= #[trigger] s[i] <= 'z' || s[i] == '_')
}

/// Each close code has its own name, and every name is non-empty
/// snake case.
#[verifier::rlimit(50)]
pub proof fn lemma_close_code_names(c: CloseCode, d: CloseCode)
    ensures
        c != d ==> close_code_name(c) != close_code_name(d),
        is_snake_name(close_code_name(c)),
{
    reveal_strlit("normal");
    assert("normal"@ =~= seq!['n', 'o', 'r', 'm', 'a', 'l']);
    reveal_strlit("draining");
    assert("draining"@ =~= seq!['d', 'r', 'a', 'i', 'n', 'i', 'n', 'g']);
    reveal_strlit("protocol_error");
    assert("protocol_error"@ =~= seq!['p', 'r', 'o', 't', 'o', 'c', 'o', 'l', '_', 'e', 'r', 'r', 'o', 'r']);
    reveal_strlit("unsupported_codec");
    assert("unsupported_codec"@ =~= seq!['u', 'n', 's', 'u', 'p', 'p', 'o', 'r', 't', 'e', 'd', '_', 'c', 'o', 'd', 'e', 'c']);
    reveal_strlit("auth_failed");
    assert("auth_failed"@ =~= seq!['a', 'u', 't', 'h', '_', 'f', 'a', 'i', 'l', 'e', 'd']);
    reveal_strlit("auth_expired");
    assert("auth_expired"@ =~= seq!['a', 'u', 't', 'h', '_', 'e', 'x', 'p', 'i', 'r', 'e', 'd']);
    reveal_strlit("permission_revoked");
    assert("permission_revoked"@ =~= seq!['p', 'e', 'r', 'm', 'i', 's', 's', 'i', 'o', 'n', '_', 'r', 'e', 'v', 'o', 'k', 'e', 'd']);
    reveal_strlit("session_conflict");
    assert("session_conflict"@ =~= seq!['s', 'e', 's', 's', 'i', 'o', 'n', '_', 'c', 'o', 'n', 'f', 'l', 'i', 'c', 't']);
    reveal_strlit("rate_limited");
    assert("rate_limited"@ =~= seq!['r', 'a', 't', 'e', '_', 'l', 'i', 'm', 'i', 't', 'e', 'd']);
    reveal_strlit("payload_too_large");
    assert("payload_too_large"@ =~= seq!['p', 'a', 'y', 'l', 'o', 'a', 'd', '_', 't', 'o', 'o', '_', 'l', 'a', 'r', 'g', 'e']);
    reveal_strlit("slow_consumer");
    assert("slow_consumer"@ =~= seq!['s', 'l', 'o', 'w', '_', 'c', 'o', 'n', 's', 'u', 'm', 'e', 'r']);
    reveal_strlit("server_overloaded");
    assert("server_overloaded"@ =~= seq!['s', 'e', 'r', 'v', 'e', 'r', '_', 'o', 'v', 'e', 'r', 'l', 'o', 'a', 'd', 'e', 'd']);
    reveal_strlit("shard_moved");
    assert("shard_moved"@ =~= seq!['s', 'h', 'a', 'r', 'd', '_', 'm', 'o', 'v', 'e', 'd']);
    reveal_strlit("idle_timeout");
    assert("idle_timeout"@ =~= seq!['i', 'd', 'l', 'e', '_', 't', 'i', 'm', 'e', 'o', 'u', 't']);
    reveal_strlit("client_upgrade_required");
    assert("client_upgrade_required"@ =~= seq!['c', 'l', 'i', 'e', 'n', 't', '_', 'u', 'p', 'g', 'r', 'a', 'd', 'e', '_', 'r', 'e', 'q', 'u', 'i', 'r', 'e', 'd']);
    reveal_strlit("policy_violation");
    assert("policy_violation"@ =~= seq!['p', 'o', 'l', 'i', 'c', 'y', '_', 'v', 'i', 'o', 'l', 'a', 't', 'i', 'o', 'n']);
}

} // verus!
