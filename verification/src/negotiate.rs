//! The per-connection negotiation state machine.
//!
//! Each handler is the decision half of one protocol state: it runs after the
//! surrounding event loop has made one non-blocking fill or drain attempt on
//! the socket, reads nothing but the connection's buffers, and either stalls
//! (await the next readiness event, nothing changed), fails (the connection
//! is torn down), or completes its frame and advances the state. The loop
//! performs the actions the handlers decide on: draining, connecting
//! upstream, and handing off to the relay.

use crate::buffer::FrameBuffer;
use crate::wire;
use crate::wire::ConnectParse;
use crate::wire::MethodParse;
use crate::wire::TargetSpec;
use vstd::prelude::*;

verus! {

/// The protocol states, in the one order they are ever visited.
#[derive(Clone, Copy, Debug, PartialEq, Eq, Structural)]
pub enum State {
    SelectMethodReq,
    SelectMethodReply,
    ConnectReq,
    ConnectReply,
    Relay,
}

/// The fatal error kinds of the handshake. Every one tears the connection
/// down; none is retried. `ResolutionFailed` and `UpstreamConnectFailed`
/// arise at the I/O edge outside this library, which raises them when name
/// resolution yields no address or the upstream connect fails.
#[derive(Clone, Copy, Debug, PartialEq, Eq, Structural)]
pub enum NegotiateError {
    UnexpectedEof,
    InvalidVersion,
    UnsupportedCommand,
    InvalidReserved,
    InvalidAddressType,
    MalformedDomainName,
    ResolutionFailed,
    UpstreamConnectFailed,
}

/// A parsed connect target, as the event loop receives it: the embedded
/// address bytes and the big-endian port, or the domain-name bytes (already
/// checked to be well-formed UTF-8) still to be resolved.
#[derive(Clone, Debug, PartialEq, Eq)]
pub enum TargetAddr {
    Ipv4 { addr: Vec<u8>, port: u16 },
    Ipv6 { addr: Vec<u8>, port: u16 },
    Domain { name: Vec<u8>, port: u16 },
}

impl View for TargetAddr {
    type V = TargetSpec;

    open spec fn view(&self) -> TargetSpec {
        match self {
            TargetAddr::Ipv4 { addr, port } => TargetSpec::Ipv4 { addr: addr@, port: *port },
            TargetAddr::Ipv6 { addr, port } => TargetSpec::Ipv6 { addr: addr@, port: *port },
            TargetAddr::Domain { name, port } => TargetSpec::Domain { name: name@, port: *port },
        }
    }
}

/// What a handler asks of the event loop.
#[derive(Clone, Debug, PartialEq, Eq)]
pub enum Step {
    /// Not enough bytes in, or bytes still queued out: await the next
    /// readiness event and call the same handler again.
    Stall,
    /// The state advanced; invoke the next state's handler within the same
    /// event (the chain is bounded by the number of states).
    Continue,
    /// The connect request parsed: open the upstream connection to this
    /// target, register it under the peer token, then queue the bind reply.
    Connect(TargetAddr),
}

/// Per-connection negotiation context: the two frame buffers, the current
/// state, and the connection's event-loop token. The sockets themselves stay
/// with the event loop.
pub struct Conn {
    /// Inbound bytes, client to server.
    pub b1: FrameBuffer,
    /// Outbound bytes, server to client.
    pub b2: FrameBuffer,
    pub state: State,
    pub token: usize,
}

impl Conn {
    pub open spec fn wf(self) -> bool {
        self.b1.wf() && self.b2.wf()
    }

    pub fn new(token: usize) -> (c: Conn)
        ensures
            c.wf(),
            c.b1@ == Seq::<u8>::empty(),
            !c.b1.eof(),
            c.b2@ == Seq::<u8>::empty(),
            !c.b2.eof(),
            c.state == State::SelectMethodReq,
            c.token == token,
    {
        Conn { b1: FrameBuffer::new(), b2: FrameBuffer::new(), state: State::SelectMethodReq, token }
    }
}

/// Both buffers, the state and the token are exactly as they were: the
/// handler suspended or failed without consuming or queueing anything.
pub open spec fn conn_unchanged(a: Conn, b: Conn) -> bool {
    &&& a.b1@ == b.b1@
    &&& a.b1.eof() == b.b1.eof()
    &&& a.b2@ == b.b2@
    &&& a.b2.eof() == b.b2.eof()
    &&& a.state == b.state
    &&& a.token == b.token
}

/// Handler for `SelectMethodReq`, run after a fill attempt on the downstream
/// socket: decide on the buffered bytes exactly as `parse_method_sel` does.
/// On a whole valid frame, consume it, queue the fixed reply, and advance.
pub fn select_method_req(c: &mut Conn) -> (r: Result<Step, NegotiateError>)
    requires
        old(c).wf(),
        old(c).state == State::SelectMethodReq,
    ensures
        final(c).wf(),
        ({
            let s = old(c).b1@;
            if s.len() == 0 && old(c).b1.eof() {
                r == Err::<Step, NegotiateError>(NegotiateError::UnexpectedEof) && conn_unchanged(
                    *old(c),
                    *final(c),
                )
            } else {
                match wire::parse_method_sel(s) {
                    MethodParse::Incomplete => r == Ok::<Step, NegotiateError>(Step::Stall)
                        && conn_unchanged(*old(c), *final(c)),
                    MethodParse::BadVersion => r == Err::<Step, NegotiateError>(
                        NegotiateError::InvalidVersion,
                    ) && conn_unchanged(*old(c), *final(c)),
                    MethodParse::Frame { n } => {
                        &&& r == Ok::<Step, NegotiateError>(Step::Continue)
                        &&& final(c).b1@ == s.skip(n)
                        &&& final(c).b1.eof() == old(c).b1.eof()
                        &&& final(c).b2@ == old(c).b2@ + wire::method_reply_frame()
                        &&& final(c).b2.eof() == old(c).b2.eof()
                        &&& final(c).state == State::SelectMethodReply
                        &&& final(c).token == old(c).token
                    },
                }
            }
        }),
{
    let len = c.b1.remaining_len();
    if len == 0 && c.b1.eof_seen() {
        return Err(NegotiateError::UnexpectedEof);
    }
    if len < 2 {
        return Ok(Step::Stall);
    }
    if c.b1.peek_byte(0) != crate::VERSION {
        return Err(NegotiateError::InvalidVersion);
    }
    let nmethods = c.b1.peek_byte(1);
    let frame_len: usize = 2 + nmethods as usize;
    if len < frame_len {
        return Ok(Step::Stall);
    }
    // The offered methods are intentionally not inspected: the design always
    // selects "no authentication", whatever the client listed.
    c.b1.skip(frame_len);
    c.b2.write_u8(crate::VERSION);
    c.b2.write_u8(0);
    proof {
        assert(c.b2@ =~= old(c).b2@ + wire::method_reply_frame());
    }
    c.state = State::SelectMethodReply;
    Ok(Step::Continue)
}

/// Handler for `SelectMethodReply`, run after a drain attempt on the
/// downstream socket: stall while reply bytes remain queued; once the reply
/// is fully out, advance to `ConnectReq`.
pub fn select_method_reply(c: &mut Conn) -> (r: Step)
    requires
        old(c).wf(),
        old(c).state == State::SelectMethodReply,
    ensures
        final(c).wf(),
        final(c).b1@ == old(c).b1@,
        final(c).b1.eof() == old(c).b1.eof(),
        final(c).b2@ == old(c).b2@,
        final(c).b2.eof() == old(c).b2.eof(),
        final(c).token == old(c).token,
        old(c).b2@.len() > 0 ==> r == Step::Stall && final(c).state == old(c).state,
        old(c).b2@.len() == 0 ==> r == Step::Continue && final(c).state == State::ConnectReq,
{
    if c.b2.remaining_len() > 0 {
        return Step::Stall;
    }
    c.state = State::ConnectReq;
    Step::Continue
}

/// Handler for `ConnectReq`, run after a fill attempt on the downstream
/// socket: decide on the buffered bytes exactly as `parse_connect_req` does.
/// On a whole valid frame, consume it and hand the parsed target to the
/// event loop; the upstream connect, and the bind reply it is followed by,
/// happen outside (`queue_bind_reply` finishes the transition).
pub fn connect_req(c: &mut Conn) -> (r: Result<Step, NegotiateError>)
    requires
        old(c).wf(),
        old(c).state == State::ConnectReq,
    ensures
        final(c).wf(),
        final(c).state == old(c).state,
        final(c).token == old(c).token,
        final(c).b2@ == old(c).b2@,
        final(c).b2.eof() == old(c).b2.eof(),
        final(c).b1.eof() == old(c).b1.eof(),
        ({
            let s = old(c).b1@;
            if s.len() == 0 && old(c).b1.eof() {
                r == Err::<Step, NegotiateError>(NegotiateError::UnexpectedEof) && final(c).b1@
                    == s
            } else {
                match wire::parse_connect_req(s) {
                    ConnectParse::Incomplete => r == Ok::<Step, NegotiateError>(Step::Stall)
                        && final(c).b1@ == s,
                    ConnectParse::Reject { e } => r == Err::<Step, NegotiateError>(e),
                    ConnectParse::Accept { t, n } => {
                        &&& (r matches Ok(step) && step matches Step::Connect(a) && a@ == t)
                        &&& final(c).b1@ == s.skip(n)
                    },
                }
            }
        }),
{
    let len = c.b1.remaining_len();
    if len == 0 && c.b1.eof_seen() {
        return Err(NegotiateError::UnexpectedEof);
    }
    if len < 4 {
        return Ok(Step::Stall);
    }
    if c.b1.peek_byte(0) != crate::VERSION {
        return Err(NegotiateError::InvalidVersion);
    }
    if c.b1.peek_byte(1) != wire::CMD_CONNECT {
        return Err(NegotiateError::UnsupportedCommand);
    }
    if c.b1.peek_byte(2) != 0 {
        return Err(NegotiateError::InvalidReserved);
    }
    let atyp = c.b1.peek_byte(3);
    if atyp == wire::ATYP_V4 {
        if len < 10 {
            return Ok(Step::Stall);
        }
        c.b1.skip(4);
        let addr = c.b1.read_exact(4);
        let port = c.b1.read_u16_be();
        proof {
            assert(addr@ =~= old(c).b1@.subrange(4, 8));
            assert(c.b1@ =~= old(c).b1@.skip(10));
        }
        Ok(Step::Connect(TargetAddr::Ipv4 { addr, port }))
    } else if atyp == wire::ATYP_V6 {
        if len < 22 {
            return Ok(Step::Stall);
        }
        c.b1.skip(4);
        let addr = c.b1.read_exact(16);
        let port = c.b1.read_u16_be();
        proof {
            assert(addr@ =~= old(c).b1@.subrange(4, 20));
            assert(c.b1@ =~= old(c).b1@.skip(22));
        }
        Ok(Step::Connect(TargetAddr::Ipv6 { addr, port }))
    } else if atyp == wire::ATYP_DOMAIN {
        if len < 5 {
            return Ok(Step::Stall);
        }
        let name_len = c.b1.peek_byte(4) as usize;
        if len < 7 + name_len {
            return Ok(Step::Stall);
        }
        c.b1.skip(5);
        let name = c.b1.read_exact(name_len);
        if !wire::is_valid_utf8(&name) {
            proof {
                assert(name@ =~= old(c).b1@.subrange(5, 5 + old(c).b1@[4]));
            }
            return Err(NegotiateError::MalformedDomainName);
        }
        let port = c.b1.read_u16_be();
        proof {
            assert(name@ =~= old(c).b1@.subrange(5, 5 + old(c).b1@[4]));
            assert(c.b1@ =~= old(c).b1@.skip(7 + old(c).b1@[4]));
        }
        Ok(Step::Connect(TargetAddr::Domain { name, port }))
    } else {
        Err(NegotiateError::InvalidAddressType)
    }
}

/// Finish the `ConnectReq` transition once the event loop has opened and
/// registered the upstream connection: queue the fixed bind reply (always
/// the unspecified IPv4 address and port zero) and advance to
/// `ConnectReply`. The outbound buffer must be empty, as it always is here:
/// the method-selection reply was fully drained before `ConnectReq` ran.
pub fn queue_bind_reply(c: &mut Conn)
    requires
        old(c).wf(),
        old(c).state == State::ConnectReq,
        old(c).b2@.len() == 0,
    ensures
        final(c).wf(),
        final(c).b1@ == old(c).b1@,
        final(c).b1.eof() == old(c).b1.eof(),
        final(c).b2@ == wire::bind_reply_frame(),
        final(c).b2.eof() == old(c).b2.eof(),
        final(c).token == old(c).token,
        final(c).state == State::ConnectReply,
{
    c.b2.write_u8(crate::VERSION);
    c.b2.write_u8(0);
    c.b2.write_u8(0);
    c.b2.write_u8(wire::ATYP_V4);
    c.b2.write_u8(0);
    c.b2.write_u8(0);
    c.b2.write_u8(0);
    c.b2.write_u8(0);
    c.b2.write_u8(0);
    c.b2.write_u8(0);
    proof {
        assert(c.b2@ =~= wire::bind_reply_frame());
    }
    c.state = State::ConnectReply;
}

/// Handler for `ConnectReply`, run after a drain attempt on the downstream
/// socket: stall while bind-reply bytes remain queued; once the reply is
/// fully out, advance to `Relay`, after which the event loop invokes the
/// relay collaborator exactly once and this core touches neither socket
/// again.
pub fn connect_reply(c: &mut Conn) -> (r: Step)
    requires
        old(c).wf(),
        old(c).state == State::ConnectReply,
    ensures
        final(c).wf(),
        final(c).b1@ == old(c).b1@,
        final(c).b1.eof() == old(c).b1.eof(),
        final(c).b2@ == old(c).b2@,
        final(c).b2.eof() == old(c).b2.eof(),
        final(c).token == old(c).token,
        old(c).b2@.len() > 0 ==> r == Step::Stall && final(c).state == old(c).state,
        old(c).b2@.len() == 0 ==> r == Step::Continue && final(c).state == State::Relay,
{
    if c.b2.remaining_len() > 0 {
        return Step::Stall;
    }
    c.state = State::Relay;
    Step::Continue
}

/// The token a connection's upstream socket is registered under: a pure,
/// invertible pairing of each even token with its odd successor.
pub open spec fn peer_of(t: usize) -> usize {
    if t % 2 == 0 {
        (t + 1) as usize
    } else {
        (t - 1) as usize
    }
}

/// Derive the upstream peer token from a connection's token.
pub fn peer_token(t: usize) -> (p: usize)
    ensures
        p == peer_of(t),
{
    if t % 2 == 0 {
        t + 1
    } else {
        t - 1
    }
}

} // verus!
