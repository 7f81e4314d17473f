use vsock::defs::{
    VSOCK_FLAGS_SHUTDOWN_RCV, VSOCK_FLAGS_SHUTDOWN_SEND, VSOCK_HOST_CID, VSOCK_OP_CREDIT_REQUEST,
    VSOCK_OP_CREDIT_UPDATE, VSOCK_OP_REQUEST, VSOCK_OP_RESPONSE, VSOCK_OP_RST, VSOCK_OP_RW,
    VSOCK_OP_SHUTDOWN,
};
use vsock::{
    handshake_ack, Error, RxAction, RxEvent, RxOps, StreamRead, StreamWrite, TxAction, TxEvent,
    VsockConnection, VsockPacket, READ_WRITE_INTEREST,
};

fn local_conn() -> VsockConnection<()> {
    VsockConnection::new_local_init((), VSOCK_HOST_CID, 5000, 3, 5001, -1)
}

fn guest_pkt(op: u16, payload: &[u8]) -> VsockPacket {
    let mut pkt = if payload.is_empty() {
        VsockPacket::new(None)
    } else {
        VsockPacket::new(Some(payload.to_vec()))
    };
    pkt.op = op;
    pkt.len = payload.len() as u32;
    pkt.buf_alloc = 65536;
    pkt.fwd_cnt = 1024;
    pkt
}

#[test]
fn consume_always_refreshes_the_credit() {
    for op in [0u16, VSOCK_OP_REQUEST, VSOCK_OP_RST, VSOCK_OP_CREDIT_REQUEST, 99] {
        let mut conn = local_conn();
        conn.rx_cnt = 2048;
        let pkt = guest_pkt(op, b"");
        assert_eq!(conn.send_pkt(&pkt, TxEvent::Start), Ok(TxAction::Done));
        assert_eq!(conn.peer_buf_alloc, 65536);
        assert_eq!(conn.peer_fwd_cnt, 1024);
        assert_eq!(conn.peer_avail_credit(), 65536 - 1024);
    }
}

#[test]
fn consume_unknown_operation_is_ignored() {
    let mut conn = local_conn();
    let pkt = guest_pkt(VSOCK_OP_RST, b"");
    assert_eq!(conn.send_pkt(&pkt, TxEvent::Start), Ok(TxAction::Done));
    assert!(!conn.connect);
    assert!(!conn.rx_queue.pending_rx());
    assert!(conn.tx_buf.is_empty());
    assert_eq!(conn.fwd_cnt, 0);
}

#[test]
fn consume_response_acknowledges_and_connects() {
    let mut conn = local_conn();
    let pkt = guest_pkt(VSOCK_OP_RESPONSE, b"");
    assert_eq!(conn.send_pkt(&pkt, TxEvent::Start), Ok(TxAction::WriteAck(5001)));
    assert!(!conn.connect);
    assert_eq!(handshake_ack(5001), b"OK 5001\n");
    assert_eq!(conn.send_pkt(&pkt, TxEvent::AckWritten(true)), Ok(TxAction::Done));
    assert!(conn.connect);
}

#[test]
fn consume_response_names_the_learned_port() {
    let mut conn = local_conn();
    conn.set_peer_port(1030);
    let pkt = guest_pkt(VSOCK_OP_RESPONSE, b"");
    assert_eq!(conn.send_pkt(&pkt, TxEvent::Start), Ok(TxAction::WriteAck(1030)));
}

#[test]
fn consume_response_reports_a_failed_acknowledgement() {
    let mut conn = local_conn();
    let pkt = guest_pkt(VSOCK_OP_RESPONSE, b"");
    assert_eq!(conn.send_pkt(&pkt, TxEvent::Start), Ok(TxAction::WriteAck(5001)));
    assert_eq!(conn.send_pkt(&pkt, TxEvent::AckWritten(false)), Err(Error::UnixWrite));
    assert!(!conn.connect);
}

#[test]
fn consume_rw_without_payload_is_dropped() {
    let mut conn = local_conn();
    let pkt = guest_pkt(VSOCK_OP_RW, b"");
    assert_eq!(conn.send_pkt(&pkt, TxEvent::Start), Ok(TxAction::Done));
    assert!(!conn.rx_queue.pending_rx());
    assert!(conn.tx_buf.is_empty());
    assert_eq!(conn.fwd_cnt, 0);
}

#[test]
fn consume_rw_written_in_full() {
    let mut conn = local_conn();
    let pkt = guest_pkt(VSOCK_OP_RW, b"hello");
    assert_eq!(pkt.payload(), Some(&b"hello"[..]));
    assert_eq!(conn.send_pkt(&pkt, TxEvent::Start), Ok(TxAction::WriteData));
    assert_eq!(
        conn.send_pkt(&pkt, TxEvent::Written(StreamWrite::Written(5))),
        Ok(TxAction::Done)
    );
    assert_eq!(conn.fwd_cnt, 5);
    assert!(conn.tx_buf.is_empty());
    assert_eq!(conn.rx_queue.peek(), Some(RxOps::CreditUpdate));
}

#[test]
fn consume_rw_buffers_what_the_stream_did_not_take() {
    let mut conn = local_conn();
    let pkt = guest_pkt(VSOCK_OP_RW, b"hello");
    assert_eq!(conn.send_pkt(&pkt, TxEvent::Start), Ok(TxAction::WriteData));
    assert_eq!(
        conn.send_pkt(&pkt, TxEvent::Written(StreamWrite::Written(2))),
        Ok(TxAction::Done)
    );
    assert_eq!(conn.fwd_cnt, 2);
    assert_eq!(conn.tx_buf.pending(), b"llo");
    assert!(conn.rx_queue.contains(RxOps::CreditUpdate));

    // the next payload goes behind what is buffered, unwritten
    let pkt = guest_pkt(VSOCK_OP_RW, b" world");
    assert_eq!(conn.send_pkt(&pkt, TxEvent::Start), Ok(TxAction::Done));
    assert_eq!(conn.tx_buf.pending(), b"llo world");
    assert_eq!(conn.fwd_cnt, 2);

    // once the buffer is flushed, writes go to the stream again
    assert_eq!(conn.tx_buf.flushed(StreamWrite::Written(9)), Ok(9));
    assert!(conn.tx_buf.is_empty());
    let pkt = guest_pkt(VSOCK_OP_RW, b"!");
    assert_eq!(conn.send_pkt(&pkt, TxEvent::Start), Ok(TxAction::WriteData));
}

#[test]
fn consume_rw_would_block_buffers_everything() {
    let mut conn = local_conn();
    let pkt = guest_pkt(VSOCK_OP_RW, b"hello");
    assert_eq!(conn.send_pkt(&pkt, TxEvent::Start), Ok(TxAction::WriteData));
    assert_eq!(
        conn.send_pkt(&pkt, TxEvent::Written(StreamWrite::WouldBlock)),
        Ok(TxAction::Done)
    );
    assert_eq!(conn.fwd_cnt, 0);
    assert_eq!(conn.tx_buf.pending(), b"hello");
    assert!(conn.rx_queue.contains(RxOps::CreditUpdate));
}

#[test]
fn consume_rw_swallows_a_failed_write() {
    let mut conn = local_conn();
    let pkt = guest_pkt(VSOCK_OP_RW, b"hello");
    assert_eq!(conn.send_pkt(&pkt, TxEvent::Start), Ok(TxAction::WriteData));
    assert_eq!(
        conn.send_pkt(&pkt, TxEvent::Written(StreamWrite::Failed)),
        Ok(TxAction::Done)
    );
    assert_eq!(conn.fwd_cnt, 0);
    assert!(conn.tx_buf.is_empty());
    assert!(!conn.rx_queue.pending_rx());
}

#[test]
fn consume_rw_payload_is_the_first_len_bytes() {
    let mut conn = local_conn();
    let mut pkt = guest_pkt(VSOCK_OP_RW, b"hello world");
    pkt.len = 5;
    assert_eq!(pkt.payload(), Some(&b"hello"[..]));
    assert_eq!(conn.send_pkt(&pkt, TxEvent::Start), Ok(TxAction::WriteData));
    assert_eq!(
        conn.send_pkt(&pkt, TxEvent::Written(StreamWrite::Written(1))),
        Ok(TxAction::Done)
    );
    assert_eq!(conn.tx_buf.pending(), b"ello");
}

#[test]
fn consume_rw_forwarded_counter_wraps() {
    let mut conn = local_conn();
    conn.fwd_cnt = 0xffff_fffd;
    let pkt = guest_pkt(VSOCK_OP_RW, b"hello");
    assert_eq!(conn.send_pkt(&pkt, TxEvent::Start), Ok(TxAction::WriteData));
    assert_eq!(
        conn.send_pkt(&pkt, TxEvent::Written(StreamWrite::Written(5))),
        Ok(TxAction::Done)
    );
    assert_eq!(conn.fwd_cnt, 2);
}

#[test]
fn send_bytes_reports_a_failed_write() {
    let mut conn = local_conn();
    assert_eq!(conn.send_bytes(b"abc"), Ok(TxAction::WriteData));
    assert_eq!(
        conn.send_bytes_written(b"abc", StreamWrite::Failed),
        Err(Error::UnixWrite)
    );
    assert_eq!(conn.fwd_cnt, 0);
    assert!(!conn.rx_queue.pending_rx());
    assert_eq!(
        conn.send_bytes_written(b"abc", StreamWrite::Written(1)),
        Ok(TxAction::Done)
    );
    assert_eq!(conn.tx_buf.pending(), b"bc");
    assert_eq!(conn.send_bytes(b"def"), Ok(TxAction::Done));
    assert_eq!(conn.tx_buf.pending(), b"bcdef");
}

#[test]
fn consume_credit_update_rearms_the_stream() {
    let mut conn = local_conn();
    let pkt = guest_pkt(VSOCK_OP_CREDIT_UPDATE, b"");
    assert_eq!(
        conn.send_pkt(&pkt, TxEvent::Start),
        Ok(TxAction::Modify(READ_WRITE_INTEREST))
    );
    assert_eq!(conn.peer_buf_alloc, 65536);
    assert_eq!(conn.send_pkt(&pkt, TxEvent::Modified(true)), Ok(TxAction::Done));
}

#[test]
fn consume_credit_update_falls_back_to_a_fresh_registration() {
    let mut conn = local_conn();
    let pkt = guest_pkt(VSOCK_OP_CREDIT_UPDATE, b"");
    assert_eq!(conn.send_pkt(&pkt, TxEvent::Start), Ok(TxAction::Modify(0x5)));
    assert_eq!(
        conn.send_pkt(&pkt, TxEvent::Modified(false)),
        Ok(TxAction::Register(0x5))
    );
    assert_eq!(conn.send_pkt(&pkt, TxEvent::Registered(true)), Ok(TxAction::Done));
    assert_eq!(conn.send_pkt(&pkt, TxEvent::Registered(false)), Ok(TxAction::Done));
    assert!(!conn.rx_queue.pending_rx());
}

#[test]
fn consume_credit_request_owes_a_credit_update() {
    let mut conn = local_conn();
    let pkt = guest_pkt(VSOCK_OP_CREDIT_REQUEST, b"");
    assert_eq!(conn.send_pkt(&pkt, TxEvent::Start), Ok(TxAction::Done));
    assert_eq!(conn.send_pkt(&pkt, TxEvent::Start), Ok(TxAction::Done));
    assert_eq!(conn.rx_queue.dequeue(), Some(RxOps::CreditUpdate));
    assert_eq!(conn.rx_queue.dequeue(), None);
}

#[test]
fn consume_shutdown_with_empty_buffer_owes_a_reset() {
    let mut conn = local_conn();
    let mut pkt = guest_pkt(VSOCK_OP_SHUTDOWN, b"");
    pkt.flags = VSOCK_FLAGS_SHUTDOWN_RCV | VSOCK_FLAGS_SHUTDOWN_SEND;
    assert_eq!(conn.send_pkt(&pkt, TxEvent::Start), Ok(TxAction::Done));
    assert!(conn.rx_queue.contains(RxOps::Reset));
}

#[test]
fn consume_shutdown_with_buffered_data_owes_no_reset() {
    let mut conn = local_conn();
    conn.tx_buf.push(b"pending").unwrap();
    let mut pkt = guest_pkt(VSOCK_OP_SHUTDOWN, b"");
    pkt.flags = VSOCK_FLAGS_SHUTDOWN_RCV | VSOCK_FLAGS_SHUTDOWN_SEND;
    assert_eq!(conn.send_pkt(&pkt, TxEvent::Start), Ok(TxAction::Done));
    assert!(!conn.rx_queue.contains(RxOps::Reset));
    assert!(!conn.rx_queue.pending_rx());
    assert_eq!(conn.tx_buf.pending(), b"pending");
}

#[test]
fn consume_shutdown_of_one_direction_owes_no_reset() {
    for flags in [0, VSOCK_FLAGS_SHUTDOWN_RCV, VSOCK_FLAGS_SHUTDOWN_SEND, 0xc] {
        let mut conn = local_conn();
        let mut pkt = guest_pkt(VSOCK_OP_SHUTDOWN, b"");
        pkt.flags = flags;
        assert_eq!(conn.send_pkt(&pkt, TxEvent::Start), Ok(TxAction::Done));
        assert!(!conn.rx_queue.pending_rx());
    }
    let mut conn = local_conn();
    let mut pkt = guest_pkt(VSOCK_OP_SHUTDOWN, b"");
    pkt.flags = 0xf;
    assert_eq!(conn.send_pkt(&pkt, TxEvent::Start), Ok(TxAction::Done));
    assert!(conn.rx_queue.contains(RxOps::Reset));
}

#[test]
fn round_trip_of_a_host_initiated_connection() {
    let mut conn = local_conn();
    let mut out = VsockPacket::new(Some(vec![0u8; 16]));

    conn.rx_queue.enqueue(RxOps::Request);
    assert_eq!(conn.recv_pkt(&mut out, RxEvent::Start), Ok(RxAction::Done));
    assert_eq!(out.op, VSOCK_OP_REQUEST);

    let response = guest_pkt(VSOCK_OP_RESPONSE, b"");
    assert_eq!(conn.send_pkt(&response, TxEvent::Start), Ok(TxAction::WriteAck(5001)));
    assert_eq!(conn.send_pkt(&response, TxEvent::AckWritten(true)), Ok(TxAction::Done));
    assert!(conn.connect);

    conn.rx_queue.enqueue(RxOps::Rw);
    assert_eq!(conn.recv_pkt(&mut out, RxEvent::Start), Ok(RxAction::ReadStream(16)));
    assert_eq!(
        conn.recv_pkt(&mut out, RxEvent::Read(StreamRead::Data(b"payload".to_vec()))),
        Ok(RxAction::Register(READ_WRITE_INTEREST))
    );
    assert_eq!(conn.recv_pkt(&mut out, RxEvent::Registered(true)), Ok(RxAction::Done));
    assert_eq!(out.op, VSOCK_OP_RW);
    assert_eq!(out.len, 7);
    assert_eq!(&out.buf.as_deref().unwrap()[..7], b"payload");
    assert_eq!(conn.rx_cnt, 7);
    assert!(!conn.rx_queue.pending_rx());
}
