use socks5_core::negotiate::connect_reply;
use socks5_core::negotiate::connect_req;
use socks5_core::negotiate::peer_token;
use socks5_core::negotiate::queue_bind_reply;
use socks5_core::negotiate::select_method_req;
use socks5_core::negotiate::select_method_reply;
use socks5_core::negotiate::Conn;
use socks5_core::negotiate::NegotiateError;
use socks5_core::negotiate::State;
use socks5_core::negotiate::Step;
use socks5_core::negotiate::TargetAddr;

fn drain_all(c: &mut Conn) -> Vec<u8> {
    let out = c.b2.remaining_bytes();
    let n = c.b2.remaining_len();
    c.b2.skip(n);
    out
}

#[test]
fn end_to_end_ipv4_connect() {
    let mut c = Conn::new(0);

    c.b1.commit_fill(&vec![0x05, 0x01, 0x00], false);
    assert_eq!(select_method_req(&mut c), Ok(Step::Continue));
    assert_eq!(c.state, State::SelectMethodReply);
    assert_eq!(drain_all(&mut c), vec![0x05, 0x00]);
    assert_eq!(select_method_reply(&mut c), Step::Continue);
    assert_eq!(c.state, State::ConnectReq);

    c.b1.commit_fill(
        &vec![0x05, 0x01, 0x00, 0x01, 0x7F, 0x00, 0x00, 0x01, 0x00, 0x50],
        false,
    );
    assert_eq!(
        connect_req(&mut c),
        Ok(Step::Connect(TargetAddr::Ipv4 { addr: vec![127, 0, 0, 1], port: 80 }))
    );
    assert_eq!(c.state, State::ConnectReq);
    assert_eq!(c.b1.remaining_len(), 0);

    queue_bind_reply(&mut c);
    assert_eq!(c.state, State::ConnectReply);
    assert_eq!(
        drain_all(&mut c),
        vec![0x05, 0x00, 0x00, 0x01, 0x00, 0x00, 0x00, 0x00, 0x00, 0x00]
    );
    assert_eq!(connect_reply(&mut c), Step::Continue);
    assert_eq!(c.state, State::Relay);
}

#[test]
fn method_request_reassembled_from_any_chunking() {
    let whole = vec![0x05u8, 0x02, 0x00, 0x01];
    let splits: Vec<Vec<usize>> = vec![
        vec![4],
        vec![1, 3],
        vec![2, 2],
        vec![3, 1],
        vec![1, 1, 2],
        vec![1, 2, 1],
        vec![2, 1, 1],
        vec![1, 1, 1, 1],
    ];
    for split in splits {
        let mut c = Conn::new(0);
        let mut offset = 0usize;
        let mut done = false;
        for chunk_len in &split {
            assert!(!done, "reached the reply state before all chunks arrived");
            let chunk = whole[offset..offset + chunk_len].to_vec();
            offset += chunk_len;
            c.b1.commit_fill(&chunk, false);
            match select_method_req(&mut c) {
                Ok(Step::Stall) => {
                    assert_eq!(c.state, State::SelectMethodReq);
                    assert_eq!(c.b2.remaining_len(), 0);
                }
                Ok(Step::Continue) => done = true,
                other => panic!("unexpected outcome {:?}", other),
            }
        }
        assert!(done);
        assert_eq!(c.state, State::SelectMethodReply);
        assert_eq!(c.b2.remaining_bytes(), vec![0x05, 0x00]);
        assert_eq!(c.b1.remaining_len(), 0);
    }
}

#[test]
fn partial_write_resumes_without_loss_or_duplication() {
    let mut c = Conn::new(0);
    c.b1.commit_fill(&vec![0x05, 0x01, 0x00], false);
    assert_eq!(select_method_req(&mut c), Ok(Step::Continue));

    let frame = c.b2.remaining_bytes();
    let mut written: Vec<u8> = Vec::new();

    // The socket accepts one byte on the first attempt.
    let part = c.b2.remaining_bytes();
    written.extend_from_slice(&part[..1]);
    c.b2.skip(1);
    assert_eq!(select_method_reply(&mut c), Step::Stall);
    assert_eq!(c.state, State::SelectMethodReply);

    // The rest goes out on the next writable event.
    let part = c.b2.remaining_bytes();
    written.extend_from_slice(&part);
    let n = c.b2.remaining_len();
    c.b2.skip(n);
    assert_eq!(select_method_reply(&mut c), Step::Continue);
    assert_eq!(c.state, State::ConnectReq);

    assert_eq!(written, frame);
    assert_eq!(written, vec![0x05, 0x00]);
}

fn connect_state_with(bytes: &[u8]) -> Conn {
    let mut c = Conn::new(0);
    c.b1.commit_fill(&vec![0x05, 0x01, 0x00], false);
    assert_eq!(select_method_req(&mut c), Ok(Step::Continue));
    let n = c.b2.remaining_len();
    c.b2.skip(n);
    assert_eq!(select_method_reply(&mut c), Step::Continue);
    c.b1.commit_fill(&bytes.to_vec(), false);
    c
}

#[test]
fn mutated_connect_header_bytes_are_rejected() {
    let good = [0x05u8, 0x01, 0x00, 0x01, 0x7F, 0x00, 0x00, 0x01, 0x00, 0x50];
    let cases: Vec<(usize, u8, NegotiateError)> = vec![
        (0, 0x04, NegotiateError::InvalidVersion),
        (0, 0x00, NegotiateError::InvalidVersion),
        (0, 0xFF, NegotiateError::InvalidVersion),
        (1, 0x02, NegotiateError::UnsupportedCommand),
        (1, 0x03, NegotiateError::UnsupportedCommand),
        (1, 0x00, NegotiateError::UnsupportedCommand),
        (2, 0x01, NegotiateError::InvalidReserved),
        (2, 0xFF, NegotiateError::InvalidReserved),
    ];
    for (i, v, expected) in cases {
        let mut mutated = good;
        mutated[i] = v;
        let mut c = connect_state_with(&mutated);
        assert_eq!(connect_req(&mut c), Err(expected));
        // No target was produced, so the event loop never attempts a connect.
        assert_eq!(c.state, State::ConnectReq);
    }
}

#[test]
fn ipv4_target_matches_embedded_address_and_port() {
    let mut c = connect_state_with(&[0x05, 0x01, 0x00, 0x01, 10, 1, 2, 3, 0x1F, 0x90]);
    assert_eq!(
        connect_req(&mut c),
        Ok(Step::Connect(TargetAddr::Ipv4 { addr: vec![10, 1, 2, 3], port: 8080 }))
    );
}

#[test]
fn ipv6_target_matches_embedded_address_and_port() {
    let mut req = vec![0x05u8, 0x01, 0x00, 0x04];
    let addr: Vec<u8> = vec![0x20, 0x01, 0x0D, 0xB8, 0, 0, 0, 0, 0, 0, 0, 0, 0, 0, 0, 1];
    req.extend_from_slice(&addr);
    req.extend_from_slice(&[0x01, 0xBB]);
    let mut c = connect_state_with(&req);
    assert_eq!(
        connect_req(&mut c),
        Ok(Step::Connect(TargetAddr::Ipv6 { addr, port: 443 }))
    );
}

#[test]
fn domain_target_carries_name_bytes_and_port() {
    let mut c = connect_state_with(&[
        0x05, 0x01, 0x00, 0x03, 0x03, b'a', b'b', b'c', 0x00, 0x50,
    ]);
    assert_eq!(
        connect_req(&mut c),
        Ok(Step::Connect(TargetAddr::Domain { name: vec![b'a', b'b', b'c'], port: 80 }))
    );
}

#[test]
fn truncated_method_request_stalls_at_every_boundary() {
    let whole = [0x05u8, 0x02, 0x00, 0x01];
    for k in 0..whole.len() {
        let mut c = Conn::new(0);
        c.b1.commit_fill(&whole[..k].to_vec(), false);
        assert_eq!(select_method_req(&mut c), Ok(Step::Stall));
        assert_eq!(c.state, State::SelectMethodReq);
        assert_eq!(c.b1.remaining_len(), k);
        assert_eq!(c.b2.remaining_len(), 0);
        // Re-callable once the rest arrives.
        c.b1.commit_fill(&whole[k..].to_vec(), false);
        assert_eq!(select_method_req(&mut c), Ok(Step::Continue));
    }
}

#[test]
fn truncated_connect_request_stalls_at_every_boundary() {
    let whole = [0x05u8, 0x01, 0x00, 0x03, 0x04, b'h', b'o', b's', b't', 0x00, 0x50];
    for k in 1..whole.len() {
        let mut c = connect_state_with(&whole[..k]);
        assert_eq!(connect_req(&mut c), Ok(Step::Stall));
        assert_eq!(c.state, State::ConnectReq);
        assert_eq!(c.b1.remaining_len(), k);
        c.b1.commit_fill(&whole[k..].to_vec(), false);
        assert_eq!(
            connect_req(&mut c),
            Ok(Step::Connect(TargetAddr::Domain {
                name: vec![b'h', b'o', b's', b't'],
                port: 80,
            }))
        );
    }
}

#[test]
fn malformed_domain_name_is_rejected_before_any_connect() {
    let mut c = connect_state_with(&[
        0x05, 0x01, 0x00, 0x03, 0x03, 0xFF, 0xFE, 0xFD, 0x00, 0x50,
    ]);
    assert_eq!(connect_req(&mut c), Err(NegotiateError::MalformedDomainName));
    assert_eq!(c.state, State::ConnectReq);
}

#[test]
fn unknown_address_type_is_rejected() {
    let mut c = connect_state_with(&[0x05, 0x01, 0x00, 0x02, 0, 0, 0, 0, 0, 0]);
    assert_eq!(connect_req(&mut c), Err(NegotiateError::InvalidAddressType));
}

#[test]
fn bad_version_in_method_request_is_rejected() {
    let mut c = Conn::new(0);
    c.b1.commit_fill(&vec![0x04, 0x01, 0x00], false);
    assert_eq!(select_method_req(&mut c), Err(NegotiateError::InvalidVersion));
    assert_eq!(c.state, State::SelectMethodReq);
}

#[test]
fn eof_before_any_byte_fails_with_unexpected_eof() {
    let mut c = Conn::new(0);
    c.b1.commit_fill(&vec![], true);
    assert_eq!(select_method_req(&mut c), Err(NegotiateError::UnexpectedEof));

    let mut c = connect_state_with(&[]);
    c.b1.commit_fill(&vec![], true);
    assert_eq!(connect_req(&mut c), Err(NegotiateError::UnexpectedEof));
}

#[test]
fn eof_after_partial_frame_stalls_rather_than_errs() {
    // EOF only matters when nothing at all is buffered; a begun frame still
    // stalls (and will fail on a later event only if nothing more arrives).
    let mut c = Conn::new(0);
    c.b1.commit_fill(&vec![0x05], true);
    assert_eq!(select_method_req(&mut c), Ok(Step::Stall));
}

#[test]
fn method_choice_is_not_inspected() {
    // Whatever methods the client offers, the reply selects method 0.
    let mut c = Conn::new(0);
    c.b1.commit_fill(&vec![0x05, 0x03, 0x00, 0x01, 0x02], false);
    assert_eq!(select_method_req(&mut c), Ok(Step::Continue));
    assert_eq!(c.b2.remaining_bytes(), vec![0x05, 0x00]);
}

#[test]
fn peer_token_pairs_and_inverts() {
    assert_eq!(peer_token(0), 1);
    assert_eq!(peer_token(1), 0);
    assert_eq!(peer_token(4), 5);
    assert_eq!(peer_token(5), 4);
    for t in 0..64usize {
        let p = peer_token(t);
        assert_ne!(p, t);
        assert_eq!(peer_token(p), t);
    }
}
