use qconnection::connection::{
    ArcConnection, ClosePlan, Reaction, RemoteParameters, RetryHeader, TimerOutcome,
};
use qconnection::datagram::DatagramFlow;
use qconnection::error::{Error, ErrorKind, DEFAULT_FRAME_TYPE};
use qconnection::state::{ConnState, ConnectionId, Pathway, RawConnection};

fn cid(n: u8) -> ConnectionId {
    let mut bytes = [0u8; 20];
    bytes[0] = n;
    ConnectionId { len: 8, bytes }
}

fn transport(reason: &str) -> Error {
    Error { kind: ErrorKind::Transport, code: 0x0a, frame_type: 0, reason: reason.to_string() }
}

/// An active connection with cids 1..=3 and paths with the given PTOs in ms.
fn active(ptos_ms: &[u64]) -> ArcConnection {
    let mut raw = RawConnection::new(cid(1), cid(9));
    raw.local_cids.push(cid(2));
    raw.local_cids.push(cid(3));
    let mut conn = ArcConnection::new(raw, DatagramFlow::new(1200, 1200));
    for (i, pto) in ptos_ms.iter().enumerate() {
        conn.add_initial_path(Pathway { id: i as u64 }, pto * 1000);
    }
    conn
}

fn params(max_datagram_frame_size: u64) -> RemoteParameters {
    RemoteParameters {
        initial_max_stream_data_bidi_local: 11,
        initial_max_stream_data_bidi_remote: 22,
        initial_max_stream_data_uni: 33,
        max_datagram_frame_size,
    }
}

fn stored_error(conn: &ArcConnection) -> Option<Error> {
    match &conn.state {
        ConnState::Closing(c) => Some(c.error.clone()),
        ConnState::Draining(d) => Some(d.error.clone()),
        _ => None,
    }
}

#[test]
fn close_with_two_paths_waits_three_ptos_then_releases_all() {
    let mut conn = active(&[100, 150]);
    assert!(conn.is_active());
    let plan = conn.close("bye".to_string());
    assert_eq!(plan, Some(ClosePlan::Closing { wait_micros: 450_000 }));
    assert!(matches!(conn.state, ConnState::Closing(_)));
    assert!(!conn.is_active());
    let e = stored_error(&conn).unwrap();
    assert_eq!(e.kind, ErrorKind::Application);
    assert_eq!(e.reason, "bye");
    // no confirmation within 450 ms
    let outcome = conn.on_closing_timer(None, 450_000);
    assert_eq!(outcome, TimerOutcome::Released(vec![cid(1), cid(2), cid(3)]));
    assert!(matches!(conn.state, ConnState::Closed));
    // a racing second termination releases nothing
    assert_eq!(conn.die(), Vec::<ConnectionId>::new());
}

#[test]
fn transport_error_without_keys_goes_straight_to_draining() {
    let mut raw = RawConnection::new(cid(1), cid(9));
    raw.handshake_keys = false;
    raw.one_rtt_keys = false;
    let mut conn = ArcConnection::new(raw, DatagramFlow::new(1200, 1200));
    conn.add_initial_path(Pathway { id: 0 }, 20_000);
    let r = conn.on_conn_error(transport("bad frame"));
    assert_eq!(r, Reaction::Close(ClosePlan::Draining { wait_micros: 60_000 }));
    assert!(matches!(conn.state, ConnState::Draining(_)));
    assert_eq!(stored_error(&conn), Some(transport("bad frame")));
}

#[test]
fn transport_error_with_keys_goes_to_closing() {
    let mut conn = active(&[10]);
    let r = conn.on_conn_error(transport("oops"));
    assert_eq!(r, Reaction::Close(ClosePlan::Closing { wait_micros: 30_000 }));
    assert!(matches!(&conn.state, ConnState::Closing(c) if c.handshake_keys && c.one_rtt_keys));
}

#[test]
fn close_twice_is_a_no_op() {
    let mut conn = active(&[100]);
    assert!(conn.close("first".to_string()).is_some());
    assert_eq!(conn.close("second".to_string()), None);
    assert_eq!(stored_error(&conn).unwrap().reason, "first");
    assert_eq!(conn.on_conn_error(transport("late")), Reaction::Ignored);
    assert_eq!(stored_error(&conn).unwrap().reason, "first");
    assert_eq!(conn.on_conn_error(transport("late")), Reaction::Ignored);
    assert!(matches!(conn.state, ConnState::Closing(_)));
}

#[test]
fn application_error_is_not_dispatched_again() {
    let mut conn = active(&[100]);
    let e = Error::with_default_fty(ErrorKind::Application, "app".to_string());
    assert_eq!(conn.on_conn_error(e), Reaction::Ignored);
    assert!(conn.is_active());
}

#[test]
fn confirmation_in_time_drains_for_the_rest() {
    let mut conn = active(&[100, 150]);
    conn.close("bye".to_string());
    let outcome = conn.on_closing_timer(Some(200_000), 450_000);
    assert_eq!(outcome, TimerOutcome::Drain { remaining_micros: 250_000 });
    assert!(matches!(conn.state, ConnState::Draining(_)));
    assert_eq!(stored_error(&conn).unwrap().reason, "bye");
    assert_eq!(conn.die(), vec![cid(1), cid(2), cid(3)]);
    assert_eq!(conn.die(), Vec::<ConnectionId>::new());
}

#[test]
fn confirmation_too_late_terminates() {
    let mut conn = active(&[100]);
    conn.close("bye".to_string());
    let outcome = conn.on_closing_timer(Some(300_000), 300_000);
    assert_eq!(outcome, TimerOutcome::Released(vec![cid(1), cid(2), cid(3)]));
}

#[test]
fn close_confirmation_received_enters_draining() {
    let mut conn = active(&[40, 70, 50]);
    let e = Error::with_default_fty(ErrorKind::CcfReceived, "peer closed".to_string());
    let r = conn.on_conn_error(e.clone());
    assert_eq!(r, Reaction::Drain { wait_micros: 210_000 });
    assert!(matches!(conn.state, ConnState::Draining(_)));
    assert_eq!(conn.enter_draining(e), None);
}

#[test]
fn no_viable_path_releases_at_once() {
    let mut conn = active(&[100]);
    let e = Error::with_default_fty(ErrorKind::NoViablePath, "gone".to_string());
    let r = conn.on_conn_error(e);
    assert_eq!(r, Reaction::Released(vec![cid(1), cid(2), cid(3)]));
    assert!(matches!(conn.state, ConnState::Closed));
    let err = conn.datagrams.read_datagram().unwrap_err();
    assert_eq!(err.kind, ErrorKind::NoViablePath);
    assert_eq!(err.reason, "No viable path");
    assert_eq!(err.frame_type, DEFAULT_FRAME_TYPE);
    assert_eq!(conn.no_vaiable_path(), Vec::<ConnectionId>::new());
}

#[test]
fn no_viable_path_after_close_changes_nothing() {
    let mut conn = active(&[100]);
    conn.close("bye".to_string());
    assert_eq!(conn.no_vaiable_path(), Vec::<ConnectionId>::new());
    assert!(matches!(conn.state, ConnState::Closing(_)));
}

#[test]
fn phases_only_move_forward_under_racing_events() {
    let mut conn = active(&[100]);
    let mut seen = vec![conn.is_active()];
    conn.on_conn_error(transport("t"));
    seen.push(conn.is_active());
    conn.close("c".to_string());
    seen.push(conn.is_active());
    conn.on_conn_error(Error::with_default_fty(ErrorKind::CcfReceived, "ccf".to_string()));
    seen.push(conn.is_active());
    conn.on_conn_error(Error::with_default_fty(ErrorKind::NoViablePath, "p".to_string()));
    seen.push(conn.is_active());
    assert_eq!(seen, vec![true, false, false, false, false]);
    assert_eq!(stored_error(&conn).unwrap().reason, "t");
    let released = conn.die();
    assert_eq!(released.len(), 3);
    assert!(conn.die().is_empty());
}

#[test]
fn closing_makes_datagrams_fail_with_the_error() {
    let mut conn = active(&[100]);
    assert_eq!(conn.datagram_reader().unwrap().max_datagram_frame_size, 1200);
    conn.close("bye".to_string());
    assert_eq!(conn.datagram_reader().unwrap_err().reason, "bye");
    assert_eq!(conn.datagram_writer(&params(1500)).unwrap_err().reason, "bye");
    assert_eq!(conn.datagrams.write_datagram(vec![1]).unwrap_err().reason, "bye");
}

#[test]
fn datagram_writer_takes_the_peer_limit() {
    let mut conn = active(&[100]);
    assert_eq!(conn.datagram_writer(&params(1500)).unwrap().max_datagram_frame_size, 1500);
    let err = conn.datagram_writer(&params(1000)).unwrap_err();
    assert_eq!(err.code, 0x0a);
    assert_eq!(conn.datagrams.raw_flow.remote_max_datagram_frame_size, 1500);
}

#[test]
fn paths_are_created_once_and_updated() {
    let mut conn = active(&[]);
    conn.add_initial_path(Pathway { id: 7 }, 5_000);
    conn.add_initial_path(Pathway { id: 7 }, 9_000);
    conn.update_path_recv_time(Pathway { id: 7 }, 123);
    conn.update_path_pto(Pathway { id: 7 }, 8_000);
    conn.update_path_recv_time(Pathway { id: 8 }, 456);
    match &conn.state {
        ConnState::Raw(raw) => {
            assert_eq!(raw.paths.len(), 1);
            assert_eq!(raw.paths[0].pto_micros, 8_000);
            assert_eq!(raw.paths[0].last_recv_micros, 123);
        }
        _ => panic!("not active"),
    }
    assert_eq!(conn.close("x".to_string()), Some(ClosePlan::Closing { wait_micros: 24_000 }));
}

#[test]
fn retry_packet_updates_token_and_destination() {
    let mut raw = RawConnection::new(cid(1), cid(9));
    raw.initial_largest_pn = 4;
    let mut conn = ArcConnection::new(raw, DatagramFlow::new(0, 0));
    let retry = RetryHeader { token: vec![7, 7, 7], scid: cid(5) };
    assert_eq!(conn.recv_retry_packet(&retry), 4);
    match &conn.state {
        ConnState::Raw(raw) => {
            assert_eq!(raw.token, vec![7, 7, 7]);
            assert_eq!(raw.initial_dcid, cid(5));
        }
        _ => panic!("not active"),
    }
    conn.add_initial_path(Pathway { id: 0 }, 1);
    conn.close("x".to_string());
    assert_eq!(conn.recv_retry_packet(&retry), 0);
}

#[test]
fn huge_pto_saturates_the_wait() {
    let mut conn = active(&[]);
    conn.add_initial_path(Pathway { id: 0 }, u64::MAX / 2);
    assert_eq!(conn.close("x".to_string()), Some(ClosePlan::Closing { wait_micros: u64::MAX }));
}

#[test]
fn stream_accessors_use_the_matching_limit_until_closed() {
    let mut conn = active(&[100]);
    let p = params(0);
    assert_eq!(conn.open_bi_stream(&p), Ok(22));
    assert_eq!(conn.open_uni_stream(&p), Ok(33));
    assert_eq!(conn.accept_bi_stream(&p), Ok(11));
    assert_eq!(conn.accept_uni_stream(), Ok(()));
    conn.on_conn_error(transport("reset"));
    assert_eq!(conn.open_bi_stream(&p), Err(transport("reset")));
    assert_eq!(conn.open_uni_stream(&p), Err(transport("reset")));
    assert_eq!(conn.accept_bi_stream(&p), Err(transport("reset")));
    assert_eq!(conn.accept_uni_stream(), Err(transport("reset")));
    assert_eq!(conn.ensure_active(), Err(transport("reset")));
}

#[test]
fn pathless_connection_accepts_no_viable_path_and_application_errors() {
    let mut conn = ArcConnection::new(RawConnection::new(cid(1), cid(9)), DatagramFlow::new(10, 10));
    let app = Error::with_default_fty(ErrorKind::Application, "a".to_string());
    assert_eq!(conn.on_conn_error(app), Reaction::Ignored);
    let e = Error::with_default_fty(ErrorKind::NoViablePath, "gone".to_string());
    assert_eq!(conn.on_conn_error(e), Reaction::Released(vec![cid(1)]));
}
