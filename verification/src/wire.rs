//! The SOCKS5 wire format, as a mathematical model.
//!
//! `parse_method_sel` and `parse_connect_req` say, for any sequence of
//! buffered bytes, whether a frame is still incomplete, must be rejected, or
//! parses to a value and a frame length. The executable handlers in
//! `negotiate` are proved to decide exactly as these functions do.

use vstd::prelude::*;

verus! {

/// CONNECT, the one command this core supports.
pub const CMD_CONNECT: u8 = 1;

/// Address-type code for a 4-byte IPv4 address.
pub const ATYP_V4: u8 = 1;

/// Address-type code for a length-prefixed domain name.
pub const ATYP_DOMAIN: u8 = 3;

/// Address-type code for a 16-byte IPv6 address.
pub const ATYP_V6: u8 = 4;

/// A big-endian 16-bit integer from two wire bytes.
pub open spec fn be16(hi: u8, lo: u8) -> u16 {
    (hi * 256 + lo) as u16
}

/// Whether a byte sequence is well-formed UTF-8, as `str::from_utf8` decides
/// it. Uninterpreted: the one fact the library relies on is that the answer
/// is a function of the bytes alone.
pub uninterp spec fn is_utf8(s: Seq<u8>) -> bool;

/// Relies on `core::str::from_utf8`: it returns `Ok` exactly on well-formed
/// UTF-8, and its verdict depends on the bytes alone.
#[verifier::external_body]
pub fn is_valid_utf8(bytes: &Vec<u8>) -> (r: bool)
    ensures
        r == is_utf8(bytes@),
{
    core::str::from_utf8(bytes.as_slice()).is_ok()
}

/// Outcome of examining buffered bytes for a method-selection request.
pub enum MethodParse {
    /// Not yet a whole frame; wait for more bytes.
    Incomplete,
    /// The version byte is wrong; the connection is torn down.
    BadVersion,
    /// A whole, valid frame of `n` bytes.
    Frame { n: int },
}

/// `VER | NMETHODS | METHODS(NMETHODS)`: complete once `2 + NMETHODS` bytes
/// are buffered; valid if the version byte matches. The offered methods are
/// deliberately not inspected: the server always selects "no authentication".
pub open spec fn parse_method_sel(s: Seq<u8>) -> MethodParse {
    if s.len() < 2 {
        MethodParse::Incomplete
    } else if s[0] != crate::VERSION {
        MethodParse::BadVersion
    } else if s.len() < 2 + s[1] {
        MethodParse::Incomplete
    } else {
        MethodParse::Frame { n: 2 + s[1] }
    }
}

/// The fixed 2-byte method-selection reply: version, then method 0 ("no
/// authentication required").
pub open spec fn method_reply_frame() -> Seq<u8> {
    seq![crate::VERSION, 0u8]
}

/// A parsed connect target, at the specification level.
pub enum TargetSpec {
    Ipv4 { addr: Seq<u8>, port: u16 },
    Ipv6 { addr: Seq<u8>, port: u16 },
    Domain { name: Seq<u8>, port: u16 },
}

/// Outcome of examining buffered bytes for a connect request.
pub enum ConnectParse {
    /// Not yet a whole frame; wait for more bytes.
    Incomplete,
    /// The frame is malformed; the connection is torn down.
    Reject { e: crate::negotiate::NegotiateError },
    /// A whole, valid frame of `n` bytes naming target `t`.
    Accept { t: TargetSpec, n: int },
}

/// `VER | CMD | RSV | ATYP | DST.ADDR | DST.PORT`. The header is validated
/// byte-exactly, in order: version, command, reserved. The address encoding
/// branches on ATYP; a frame shorter than its encoding demands is incomplete,
/// never an error. A domain name must be well-formed UTF-8.
pub open spec fn parse_connect_req(s: Seq<u8>) -> ConnectParse {
    if s.len() < 4 {
        ConnectParse::Incomplete
    } else if s[0] != crate::VERSION {
        ConnectParse::Reject { e: crate::negotiate::NegotiateError::InvalidVersion }
    } else if s[1] != CMD_CONNECT {
        ConnectParse::Reject { e: crate::negotiate::NegotiateError::UnsupportedCommand }
    } else if s[2] != 0 {
        ConnectParse::Reject { e: crate::negotiate::NegotiateError::InvalidReserved }
    } else if s[3] == ATYP_V4 {
        if s.len() < 10 {
            ConnectParse::Incomplete
        } else {
            ConnectParse::Accept {
                t: TargetSpec::Ipv4 { addr: s.subrange(4, 8), port: be16(s[8], s[9]) },
                n: 10,
            }
        }
    } else if s[3] == ATYP_V6 {
        if s.len() < 22 {
            ConnectParse::Incomplete
        } else {
            ConnectParse::Accept {
                t: TargetSpec::Ipv6 { addr: s.subrange(4, 20), port: be16(s[20], s[21]) },
                n: 22,
            }
        }
    } else if s[3] == ATYP_DOMAIN {
        if s.len() < 5 {
            ConnectParse::Incomplete
        } else if s.len() < 7 + s[4] {
            ConnectParse::Incomplete
        } else if !is_utf8(s.subrange(5, 5 + s[4])) {
            ConnectParse::Reject { e: crate::negotiate::NegotiateError::MalformedDomainName }
        } else {
            ConnectParse::Accept {
                t: TargetSpec::Domain {
                    name: s.subrange(5, 5 + s[4]),
                    port: be16(s[5 + s[4]], s[6 + s[4]]),
                },
                n: 7 + s[4],
            }
        }
    } else {
        ConnectParse::Reject { e: crate::negotiate::NegotiateError::InvalidAddressType }
    }
}

/// The fixed 10-byte bind reply: version, REP 0 (succeeded), RSV 0, ATYP
/// IPv4, then the unspecified address 0.0.0.0 and port 0. The design never
/// reports the real local bind address.
pub open spec fn bind_reply_frame() -> Seq<u8> {
    seq![crate::VERSION, 0u8, 0u8, ATYP_V4, 0u8, 0u8, 0u8, 0u8, 0u8, 0u8]
}

} // verus!
