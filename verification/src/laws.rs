//! The properties that make suspend-and-resume parsing safe, proved once
//! over the wire-format model.
//!
//! The handlers in `negotiate` re-run the parser from the start of the
//! buffer on every readiness event, consume bytes only on a whole valid
//! frame, and stall without touching anything otherwise. The lemmas here say
//! why that discipline is sound: a verdict reached on buffered bytes never
//! changes when more bytes arrive, a truncated frame always stalls rather
//! than erring, corrupting a validated header byte is always caught, and
//! draining in parts neither loses nor duplicates a byte.

use crate::negotiate::NegotiateError;
use crate::wire;
use crate::wire::ConnectParse;
use crate::wire::MethodParse;
use vstd::prelude::*;
use vstd::seq_lib::lemma_flatten_concat;

verus! {

/// Once the buffered bytes yield a verdict on a method-selection request —
/// a whole frame or a rejection — any bytes that arrive later leave that
/// verdict exactly as it was.
pub proof fn lemma_method_frame_extension_stable(s: Seq<u8>, t: Seq<u8>)
    requires
        !(wire::parse_method_sel(s) is Incomplete),
    ensures
        wire::parse_method_sel(s + t) == wire::parse_method_sel(s),
{
    assert(s.len() >= 2);
    assert((s + t)[0] == s[0]);
    assert((s + t)[1] == s[1]);
}

/// Once the buffered bytes yield a verdict on a connect request, any bytes
/// that arrive later leave that verdict exactly as it was.
pub proof fn lemma_connect_extension_stable(s: Seq<u8>, t: Seq<u8>)
    requires
        !(wire::parse_connect_req(s) is Incomplete),
    ensures
        wire::parse_connect_req(s + t) == wire::parse_connect_req(s),
{
    assert(s.len() >= 4);
    assert((s + t)[0] == s[0]);
    assert((s + t)[1] == s[1]);
    assert((s + t)[2] == s[2]);
    assert((s + t)[3] == s[3]);
    if s[0] == crate::VERSION && s[1] == wire::CMD_CONNECT && s[2] == 0 {
        if s[3] == wire::ATYP_V4 {
            assert((s + t).subrange(4, 8) =~= s.subrange(4, 8));
            assert((s + t)[8] == s[8]);
            assert((s + t)[9] == s[9]);
        } else if s[3] == wire::ATYP_V6 {
            assert((s + t).subrange(4, 20) =~= s.subrange(4, 20));
            assert((s + t)[20] == s[20]);
            assert((s + t)[21] == s[21]);
        } else if s[3] == wire::ATYP_DOMAIN {
            assert(s.len() >= 7 + s[4]);
            assert((s + t)[4] == s[4]);
            assert((s + t).subrange(5, 5 + s[4]) =~= s.subrange(5, 5 + s[4]));
            assert((s + t)[5 + s[4]] == s[5 + s[4]]);
            assert((s + t)[6 + s[4]] == s[6 + s[4]]);
        }
    }
}

/// A valid method-selection frame truncated at any byte boundary strictly
/// before its end is incomplete — a stall, never an error.
pub proof fn lemma_method_frame_truncation_stalls(s: Seq<u8>, k: int)
    requires
        wire::parse_method_sel(s) matches MethodParse::Frame { n } && 0 <= k < n,
    ensures
        wire::parse_method_sel(s.take(k)) is Incomplete,
{
    if k >= 2 {
        assert(s.take(k)[0] == s[0]);
        assert(s.take(k)[1] == s[1]);
    }
}

/// A valid connect frame truncated at any byte boundary strictly before its
/// end is incomplete — a stall, never an error.
pub proof fn lemma_connect_truncation_stalls(s: Seq<u8>, k: int)
    requires
        wire::parse_connect_req(s) matches ConnectParse::Accept { t, n } && 0 <= k < n,
    ensures
        wire::parse_connect_req(s.take(k)) is Incomplete,
{
    if k >= 4 {
        assert(s.take(k)[0] == s[0]);
        assert(s.take(k)[1] == s[1]);
        assert(s.take(k)[2] == s[2]);
        assert(s.take(k)[3] == s[3]);
        if s[3] == wire::ATYP_DOMAIN && k >= 5 {
            assert(s.take(k)[4] == s[4]);
        }
    }
}

/// Corrupting any one of the three validated header bytes of an otherwise
/// valid connect request — version, command, reserved — is rejected with
/// precisely the matching error kind; no target is ever produced, so no
/// upstream connect is attempted.
pub proof fn lemma_connect_header_mutation_rejected(s: Seq<u8>, i: int, v: u8)
    requires
        wire::parse_connect_req(s) is Accept,
        0 <= i < 3,
        v != s[i],
    ensures
        wire::parse_connect_req(s.update(i, v)) == (ConnectParse::Reject {
            e: if i == 0 {
                NegotiateError::InvalidVersion
            } else if i == 1 {
                NegotiateError::UnsupportedCommand
            } else {
                NegotiateError::InvalidReserved
            },
        }),
{
    assert(s.len() >= 4);
    let u = s.update(i, v);
    assert(u.len() == s.len());
    assert(u[i] == v);
    if i == 0 {
        assert(u[0] != crate::VERSION);
    } else if i == 1 {
        assert(u[0] == s[0]);
        assert(u[1] != wire::CMD_CONNECT);
    } else {
        assert(u[0] == s[0]);
        assert(u[1] == s[1]);
        assert(u[2] != 0);
    }
}

/// A partial drain loses and duplicates nothing: the bytes a first attempt
/// handed to the socket and the bytes still queued afterwards concatenate to
/// exactly the frame that was buffered, in order. Chaining this over any
/// number of attempts, everything written across calls is that frame and
/// nothing else.
pub proof fn lemma_partial_drain_no_loss(s: Seq<u8>, n: int)
    requires
        0 <= n <= s.len(),
    ensures
        s.take(n) + s.skip(n) == s,
{
    assert(s.take(n) + s.skip(n) =~= s);
}

/// Frame reassembly: deliver a method-selection request in any number of
/// chunks of any sizes, invoking the handler after each fill. The handler
/// consumes nothing while the frame is incomplete, so the buffer after `i`
/// fills holds the first `i` chunks concatenated; and the moment those bytes
/// yield a verdict, it is the same verdict the whole byte sequence yields —
/// delivery in chunks and delivery in one piece decide identically.
pub proof fn lemma_method_frame_reassembly(parts: Seq<Seq<u8>>, i: int)
    requires
        0 <= i <= parts.len(),
        !(wire::parse_method_sel(parts.take(i).flatten()) is Incomplete),
    ensures
        wire::parse_method_sel(parts.flatten()) == wire::parse_method_sel(
            parts.take(i).flatten(),
        ),
{
    assert(parts.take(i) + parts.skip(i) =~= parts);
    lemma_flatten_concat(parts.take(i), parts.skip(i));
    assert(parts.flatten() == parts.take(i).flatten() + parts.skip(i).flatten());
    lemma_method_frame_extension_stable(parts.take(i).flatten(), parts.skip(i).flatten());
}

/// Token derivation is an involution that never maps a token to itself: the
/// peer token of a connection's upstream socket leads back to the connection,
/// so either readiness event finds the one owning context, and the two
/// registrations never collide.
pub proof fn lemma_peer_token_invertible(t: usize)
    ensures
        crate::negotiate::peer_of(crate::negotiate::peer_of(t)) == t,
        crate::negotiate::peer_of(t) != t,
{
}

/// Frame reassembly for the connect request, by the same argument.
pub proof fn lemma_connect_reassembly(parts: Seq<Seq<u8>>, i: int)
    requires
        0 <= i <= parts.len(),
        !(wire::parse_connect_req(parts.take(i).flatten()) is Incomplete),
    ensures
        wire::parse_connect_req(parts.flatten()) == wire::parse_connect_req(
            parts.take(i).flatten(),
        ),
{
    assert(parts.take(i) + parts.skip(i) =~= parts);
    lemma_flatten_concat(parts.take(i), parts.skip(i));
    assert(parts.flatten() == parts.take(i).flatten() + parts.skip(i).flatten());
    lemma_connect_extension_stable(parts.take(i).flatten(), parts.skip(i).flatten());
}

} // verus!
