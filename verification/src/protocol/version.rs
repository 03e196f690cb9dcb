//! Protocol-level constants: version, name and negotiation rules.

use vstd::prelude::*;

verus! {

/// Protocol name on the wire (`hello.protocol`).
pub const PROTOCOL_NAME: &'static str = "rift";

/// Current major version. Bumped on backwards-incompatible changes.
pub const PROTOCOL_MAJOR: u16 = 1;

/// Current minor version. Bumped on backwards-compatible changes.
pub const PROTOCOL_MINOR: u16 = 0;

/// Lowest supported major version offered to clients during hello.
pub const SUPPORTED_MAJOR_MIN: u16 = 1;

/// Highest supported major version offered to clients during hello.
pub const SUPPORTED_MAJOR_MAX: u16 = 1;

/// Encoded protocol version (`major << 8 | minor`), the value of the
/// `version` field of every frame.
pub fn encoded_version() -> (r: u16)
    ensures
        r == PROTOCOL_MAJOR * 256 + PROTOCOL_MINOR,
        r == 0x0100,
{
    let r = (PROTOCOL_MAJOR << 8u16) | PROTOCOL_MINOR;
    assert(r == 0x0100) by (bit_vector)
        requires
            r == (1u16 << 8u16) | 0u16,
    ;
    r
}

/// Negotiate the highest mutually-supported major version: the
/// client's major when it lies in the supported range, else `None`.
pub fn negotiate_major(client_major: u16) -> (r: Option<u16>)
    ensures
        r == (if SUPPORTED_MAJOR_MIN <= client_major <= SUPPORTED_MAJOR_MAX {
            Some(client_major)
        } else {
            None::<u16>
        }),
{
    if SUPPORTED_MAJOR_MIN <= client_major && client_major <= SUPPORTED_MAJOR_MAX {
        Some(client_major)
    } else {
        None
    }
}

} // verus!
