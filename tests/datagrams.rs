use qconnection::datagram::{DatagramFlow, DatagramFrame};
use qconnection::error::{Error, ErrorKind};

fn err(reason: &str) -> Error {
    Error::with_default_fty(ErrorKind::Transport, reason.to_string())
}

#[test]
fn remote_size_only_grows() {
    let mut flow = DatagramFlow::new(100, 500);
    let e = flow.update_remote_max_datagram_frame_size(499).unwrap_err();
    assert_eq!(e.kind, ErrorKind::Transport);
    assert_eq!(e.code, 0x0a);
    assert_eq!(flow.raw_flow.remote_max_datagram_frame_size, 500);
    assert!(flow.update_remote_max_datagram_frame_size(500).is_ok());
    assert_eq!(flow.raw_flow.remote_max_datagram_frame_size, 500);
    assert!(flow.update_remote_max_datagram_frame_size(900).is_ok());
    assert_eq!(flow.raw_flow.remote_max_datagram_frame_size, 900);
}

#[test]
fn errors_are_sticky_and_the_first_wins() {
    let mut flow = DatagramFlow::new(100, 100);
    flow.on_conn_error(&err("first"));
    flow.on_conn_error(&err("second"));
    assert_eq!(flow.read_datagram().unwrap_err(), err("first"));
    assert_eq!(flow.write_datagram(vec![1, 2]).unwrap_err(), err("first"));
    assert_eq!(flow.reader().unwrap_err(), err("first"));
    assert_eq!(flow.writer().unwrap_err(), err("first"));
    let body = bytes::Bytes::from_static(b"hi");
    assert_eq!(flow.recv_datagram(DatagramFrame { length: 2 }, body).unwrap_err(), err("first"));
    let mut limit: usize = 1000;
    let mut buf = Vec::new();
    assert_eq!(flow.try_read_datagram(&mut limit, &mut buf), None);
}

#[test]
fn received_datagrams_reach_the_reader_in_order() {
    let mut flow = DatagramFlow::new(100, 100);
    let a = bytes::Bytes::from_static(b"abc");
    let b = bytes::Bytes::from(vec![9u8, 8]);
    assert!(flow.recv_datagram(DatagramFrame { length: 3 }, a).is_ok());
    assert!(flow.recv_datagram(DatagramFrame { length: 2 }, b).is_ok());
    assert_eq!(flow.read_datagram().unwrap(), Some(b"abc".to_vec()));
    assert_eq!(flow.read_datagram().unwrap(), Some(vec![9, 8]));
    assert_eq!(flow.read_datagram().unwrap(), None);
}

#[test]
fn oversized_received_datagram_is_a_protocol_violation() {
    let mut flow = DatagramFlow::new(10, 100);
    let e = flow
        .recv_datagram(DatagramFrame { length: 11 }, bytes::Bytes::from(vec![0u8; 11]))
        .unwrap_err();
    assert_eq!(e.code, 0x0a);
    assert_eq!(e.kind, ErrorKind::Transport);
    assert_eq!(flow.raw_flow.incoming.len(), 0);
    // a payload exactly as long as the limit is accepted
    assert!(flow.recv_datagram(DatagramFrame { length: 10 }, bytes::Bytes::from(vec![0u8; 10])).is_ok());
    assert_eq!(flow.raw_flow.incoming.len(), 1);
}

#[test]
fn sending_respects_both_limits() {
    let mut flow = DatagramFlow::new(100, 70);
    flow.write_datagram(vec![5u8; 64]).unwrap();
    let mut buf = vec![0xff];
    // frame is 1 + 2 + 64 = 67 bytes
    let mut limit: usize = 66;
    assert_eq!(flow.try_read_datagram(&mut limit, &mut buf), None);
    assert_eq!(limit, 66);
    limit = 100;
    assert_eq!(
        flow.try_read_datagram(&mut limit, &mut buf),
        Some((DatagramFrame { length: 64 }, 64))
    );
    assert_eq!(limit, 33);
    assert_eq!(buf.len(), 65);
    assert_eq!(buf[0], 0xff);
    assert_eq!(buf[64], 5);
    assert_eq!(flow.try_read_datagram(&mut limit, &mut buf), None);

    flow.write_datagram(vec![1u8; 71]).unwrap();
    limit = 1000;
    // 71 > 70, the peer's limit
    assert_eq!(flow.try_read_datagram(&mut limit, &mut buf), None);
    assert_eq!(flow.raw_flow.outgoing.len(), 1);
}

#[test]
fn payload_as_long_as_the_peer_limit_is_sent() {
    let mut flow = DatagramFlow::new(100, 70);
    flow.write_datagram(vec![1u8; 70]).unwrap();
    let mut limit: usize = 73;
    let mut buf = Vec::new();
    // frame is 1 + 2 + 70 = 73 bytes
    assert_eq!(
        flow.try_read_datagram(&mut limit, &mut buf),
        Some((DatagramFrame { length: 70 }, 70))
    );
    assert_eq!(limit, 0);
}

#[test]
fn small_frames_use_a_one_byte_length() {
    let mut flow = DatagramFlow::new(100, 100);
    flow.write_datagram(vec![1, 2, 3]).unwrap();
    let mut limit: usize = 5;
    let mut buf = Vec::new();
    assert_eq!(
        flow.try_read_datagram(&mut limit, &mut buf),
        Some((DatagramFrame { length: 3 }, 3))
    );
    assert_eq!(limit, 0);
    assert_eq!(buf, vec![1, 2, 3]);
}

#[test]
fn rw_hands_out_both_limits() {
    let flow = DatagramFlow::new(300, 400);
    let (r, w) = flow.rw();
    assert_eq!(r.max_datagram_frame_size, 300);
    assert_eq!(w.max_datagram_frame_size, 400);
    assert_eq!(flow.reader().unwrap().max_datagram_frame_size, 300);
    assert_eq!(flow.writer().unwrap().max_datagram_frame_size, 400);
}
