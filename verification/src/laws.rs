//! What holds of every connection, queue and packet, whatever its state:
//! each statement is proved from the definitions of the state machine.

use vstd::prelude::*;
use crate::ack::{ack_line, decimal};
use crate::defs::{
    Error, CONN_TX_BUF_SIZE, VSOCK_FLAGS_SHUTDOWN_RCV, VSOCK_FLAGS_SHUTDOWN_SEND,
    VSOCK_OP_CREDIT_REQUEST, VSOCK_OP_CREDIT_UPDATE, VSOCK_OP_REQUEST, VSOCK_OP_RESPONSE,
    VSOCK_OP_RST, VSOCK_OP_RW, VSOCK_OP_SHUTDOWN, VSOCK_TYPE_STREAM,
};
use crate::model::{shuts_both, wrap32, ConnState};
use crate::packet::PacketView;
use crate::rxops::RxOps;
use crate::rxqueue::enqueued;
use crate::stream::{
    RxAction, RxEvent, StreamRead, StreamWrite, TxAction, TxEvent, READ_WRITE_INTEREST,
};
use crate::txbuf::{tx_buf_fits, written_len};

verus! {

/// The credit formula survives the wrap of its counters: as long as the
/// bytes in flight, counted without bound, do not exceed the peer's buffer,
/// the credit is the buffer size less the bytes in flight.
pub proof fn law_credit_across_wraparound(c: ConnState, sent: nat, forwarded: nat)
    requires
        c.rx_cnt == wrap32(sent as int),
        c.peer_fwd_cnt == wrap32(forwarded as int),
        forwarded <= sent,
        sent - forwarded <= c.peer_buf_alloc,
    ensures
        c.peer_avail_credit() == c.peer_buf_alloc - (sent - forwarded),
        c.need_credit_update_from_peer() <==> sent - forwarded == c.peer_buf_alloc,
{
    let m = 0x1_0000_0000int;
    let s = sent as int;
    let f = forwarded as int;
    assert((s % m - f % m) % m == (s - f) % m) by {
        vstd::arithmetic::div_mod::lemma_sub_mod_noop(s, f, m);
    }
    assert((s - f) % m == s - f) by {
        vstd::arithmetic::div_mod::lemma_small_mod((s - f) as nat, m as nat);
    }
}

/// A connection that the host side has just initiated is not established,
/// owes the guest nothing, and may send no data before the peer has
/// announced its credit.
pub proof fn law_local_init(
    local_cid: u64,
    local_port: u32,
    guest_cid: u64,
    guest_port: u32,
    epoll_fd: i32,
)
    ensures
        !ConnState::local_init(local_cid, local_port, guest_cid, guest_port, epoll_fd).connect,
        ConnState::local_init(local_cid, local_port, guest_cid, guest_port, epoll_fd).rx_queue.len()
            == 0,
        ConnState::local_init(
            local_cid,
            local_port,
            guest_cid,
            guest_port,
            epoll_fd,
        ).need_credit_update_from_peer(),
{
}

/// A connection that the guest has just initiated owes the response and
/// nothing else, and knows the buffer size that the guest announced.
pub proof fn law_peer_init(
    local_cid: u64,
    local_port: u32,
    guest_cid: u64,
    guest_port: u32,
    epoll_fd: i32,
    peer_buf_alloc: u32,
)
    ensures
        ({
            let c = ConnState::peer_init(
                local_cid,
                local_port,
                guest_cid,
                guest_port,
                epoll_fd,
                peer_buf_alloc,
            );
            &&& !c.connect
            &&& c.rx_queue == seq![RxOps::Response]
            &&& c.peer_buf_alloc == peer_buf_alloc
            &&& c.peer_avail_credit() == peer_buf_alloc
        }),
{
}

/// Enqueueing an operation a second time changes nothing.
pub proof fn law_enqueue_idempotent(q: Seq<RxOps>, op: RxOps)
    ensures
        enqueued(enqueued(q, op), op) == enqueued(q, op),
        enqueued(q, op).contains(op),
{
    if !q.contains(op) {
        assert(q.push(op)[q.len() as int] == op);
    }
}

/// A queue without duplicates stays so, and an operation enqueued twice is
/// in it exactly once: dequeued from a queue that held nothing else, it
/// leaves the queue empty.
pub proof fn law_enqueue_exactly_once(q: Seq<RxOps>, op: RxOps)
    requires
        q.no_duplicates(),
    ensures
        enqueued(enqueued(q, op), op).no_duplicates(),
        enqueued(enqueued(q, op), op).contains(op),
        q.len() == 0 ==> enqueued(enqueued(q, op), op) == seq![op] && enqueued(
            enqueued(q, op),
            op,
        ).skip(1).len() == 0,
{
    law_enqueue_idempotent(q, op);
}

/// First in, first out: enqueueing leaves the pending operations where they
/// are, so that the one in front stays in front, and puts a new one behind
/// all of them; dequeueing takes the one in front.
pub proof fn law_queue_is_fifo(q: Seq<RxOps>, op: RxOps)
    ensures
        enqueued(q, op).subrange(0, q.len() as int) == q,
        q.len() > 0 ==> enqueued(q, op)[0] == q[0],
        !q.contains(op) ==> enqueued(q, op).len() == q.len() + 1 && enqueued(q, op).last() == op,
        q.contains(op) ==> enqueued(q, op) == q,
{
}

/// Whatever is pending, and even where nothing is, producing starts by
/// filling in the connection's header; the payload buffer stays as it is.
pub proof fn law_produce_fills_header(c: ConnState, p: PacketView)
    ensures
        ({
            let pkt = c.rx_step(p, RxEvent::Start).pkt;
            &&& pkt.src_cid == c.local_cid
            &&& pkt.dst_cid == c.guest_cid
            &&& pkt.src_port == c.local_port
            &&& pkt.dst_port == c.peer_port
            &&& pkt.pkt_type == VSOCK_TYPE_STREAM
            &&& pkt.buf_alloc == CONN_TX_BUF_SIZE
            &&& pkt.fwd_cnt == c.fwd_cnt
            &&& pkt.buf == p.buf
        }),
{
}

/// Producing fails for want of an operation exactly when nothing is pending
/// or a reset is in front, which has no packet of its own.
pub proof fn law_produce_nothing_pending(c: ConnState, p: PacketView)
    ensures
        c.rx_step(p, RxEvent::Start).res == Err::<RxAction, Error>(Error::NoRequestRx) <==> (
        c.rx_queue.len() == 0 || c.rx_queue[0] == RxOps::Reset),
        c.rx_queue.len() == 0 ==> c.rx_step(p, RxEvent::Start).conn == c,
{
}

/// Producing with `Request` in front yields a REQUEST packet and takes the
/// operation off the queue; a queue that held nothing else is drained.
pub proof fn law_produce_request(c: ConnState, p: PacketView)
    requires
        c.rx_queue.len() > 0,
        c.rx_queue[0] == RxOps::Request,
    ensures
        c.rx_step(p, RxEvent::Start).res == Ok::<RxAction, Error>(RxAction::Done),
        c.rx_step(p, RxEvent::Start).pkt.op == VSOCK_OP_REQUEST,
        c.rx_step(p, RxEvent::Start).conn.rx_queue == c.rx_queue.skip(1),
        c.rx_queue.len() == 1 ==> c.rx_step(p, RxEvent::Start).conn.rx_queue.len() == 0,
{
}

/// Producing with `Rw` in front on a connection that is not established
/// yields a reset, not data.
pub proof fn law_produce_rw_unconnected(c: ConnState, p: PacketView)
    requires
        c.rx_queue.len() > 0,
        c.rx_queue[0] == RxOps::Rw,
        !c.connect,
    ensures
        c.rx_step(p, RxEvent::Start).res == Ok::<RxAction, Error>(RxAction::Done),
        c.rx_step(p, RxEvent::Start).pkt.op == VSOCK_OP_RST,
        c.rx_step(p, RxEvent::Start).pkt.op != VSOCK_OP_RW,
{
}

/// Producing with `Rw` in front on an established connection whose peer has
/// no credit left yields a credit request and marks the forwarded count as
/// announced.
pub proof fn law_produce_rw_without_credit(c: ConnState, p: PacketView)
    requires
        c.rx_queue.len() > 0,
        c.rx_queue[0] == RxOps::Rw,
        c.connect,
        c.peer_avail_credit() == 0,
    ensures
        c.rx_step(p, RxEvent::Start).res == Ok::<RxAction, Error>(RxAction::Done),
        c.rx_step(p, RxEvent::Start).pkt.op == VSOCK_OP_CREDIT_REQUEST,
        c.rx_step(p, RxEvent::Start).conn.last_fwd_cnt == c.fwd_cnt,
{
}

/// Producing with `Rw` in front, established, with credit and a payload
/// buffer asks for a read of at most what both buffer and credit allow.
pub proof fn law_produce_rw_reads(c: ConnState, p: PacketView)
    requires
        c.rx_queue.len() > 0,
        c.rx_queue[0] == RxOps::Rw,
        c.connect,
        c.peer_avail_credit() > 0,
        p.buf is Some,
    ensures
        c.rx_step(p, RxEvent::Start).res == Ok::<RxAction, Error>(
            RxAction::ReadStream(c.max_read(p) as usize),
        ),
        c.max_read(p) <= p.capacity(),
        c.max_read(p) <= c.peer_avail_credit(),
        c.rx_step(p, RxEvent::Start).conn.max_read(c.rx_step(p, RxEvent::Start).pkt) == c.max_read(
            p,
        ),
{
}

/// Where that read delivers no bytes the packet announces the shutdown of
/// both directions, and the sent-bytes counter advances by the packet's
/// length: by nothing for a packet that came in empty.
pub proof fn law_produce_rw_stream_closed(c: ConnState, p: PacketView, read: StreamRead)
    requires
        c.rx_queue.len() > 0,
        c.rx_queue[0] == RxOps::Rw,
        c.connect,
        c.peer_avail_credit() > 0,
        p.buf is Some,
        read matches StreamRead::Data(data) && data@.len() == 0,
    ensures
        ({
            let first = c.rx_step(p, RxEvent::Start);
            let second = first.conn.rx_step(first.pkt, RxEvent::Read(read));
            &&& second.res == Ok::<RxAction, Error>(RxAction::Done)
            &&& second.pkt.op == VSOCK_OP_SHUTDOWN
            &&& shuts_both(second.pkt.flags)
            &&& second.conn.rx_cnt == wrap32(c.rx_cnt + p.len)
            &&& p.len == 0 ==> second.conn.rx_cnt == c.rx_cnt
            &&& second.conn.last_fwd_cnt == c.fwd_cnt
        }),
{
    let flags = p.flags;
    assert(shuts_both(flags | VSOCK_FLAGS_SHUTDOWN_RCV | VSOCK_FLAGS_SHUTDOWN_SEND)) by {
        assert((flags | 1u32 | 2u32) & 1u32 != 0 && (flags | 1u32 | 2u32) & 2u32 != 0)
            by (bit_vector);
    }
}

/// Where that read delivers bytes the packet carries exactly them as an RW
/// packet, the stream's descriptor is to be registered for reading and
/// writing, and once that is done the sent-bytes counter has advanced by the
/// number of bytes. A failed registration is an error and counts nothing.
pub proof fn law_produce_rw_data(c: ConnState, p: PacketView, read: StreamRead, registered: bool)
    requires
        c.rx_queue.len() > 0,
        c.rx_queue[0] == RxOps::Rw,
        c.connect,
        c.peer_avail_credit() > 0,
        p.buf is Some,
        read matches StreamRead::Data(data) && 0 < data@.len() <= c.max_read(p),
    ensures
        ({
            let data = read->Data_0@;
            let first = c.rx_step(p, RxEvent::Start);
            let second = first.conn.rx_step(first.pkt, RxEvent::Read(read));
            let third = second.conn.rx_step(second.pkt, RxEvent::Registered(registered));
            &&& second.res == Ok::<RxAction, Error>(RxAction::Register(READ_WRITE_INTEREST))
            &&& second.pkt.op == VSOCK_OP_RW
            &&& second.pkt.len == data.len()
            &&& second.pkt.wf()
            &&& second.pkt.payload() == data
            &&& third.pkt == second.pkt
            &&& registered ==> third.res == Ok::<RxAction, Error>(RxAction::Done)
                && third.conn.rx_cnt == wrap32(c.rx_cnt + data.len())
                && third.conn.last_fwd_cnt == c.fwd_cnt
            &&& !registered ==> third.res == Err::<RxAction, Error>(Error::EpollAdd)
                && third.conn.rx_cnt == c.rx_cnt
        }),
{
}

/// Flow control: a data packet never carries more than the peer can take,
/// and once it counts as sent the credit is down by exactly its payload.
pub proof fn law_produce_rw_spends_credit(c: ConnState, p: PacketView, read: StreamRead)
    requires
        c.rx_queue.len() > 0,
        c.rx_queue[0] == RxOps::Rw,
        c.connect,
        c.peer_avail_credit() > 0,
        p.buf is Some,
        read matches StreamRead::Data(data) && 0 < data@.len() <= c.max_read(p),
    ensures
        ({
            let first = c.rx_step(p, RxEvent::Start);
            let second = first.conn.rx_step(first.pkt, RxEvent::Read(read));
            let third = second.conn.rx_step(second.pkt, RxEvent::Registered(true));
            &&& second.pkt.len <= c.peer_avail_credit()
            &&& third.conn.peer_avail_credit() == c.peer_avail_credit() - second.pkt.len
        }),
{
}

/// Producing with `Response` in front establishes the connection and
/// yields a RESPONSE packet.
pub proof fn law_produce_response(c: ConnState, p: PacketView)
    requires
        c.rx_queue.len() > 0,
        c.rx_queue[0] == RxOps::Response,
    ensures
        c.rx_step(p, RxEvent::Start).res == Ok::<RxAction, Error>(RxAction::Done),
        c.rx_step(p, RxEvent::Start).pkt.op == VSOCK_OP_RESPONSE,
        c.rx_step(p, RxEvent::Start).conn.connect,
{
}

/// Producing with `CreditUpdate` in front announces the credit only where
/// nothing else is pending; else the packet keeps its operation and the
/// turn is spent.
pub proof fn law_produce_credit_update(c: ConnState, p: PacketView)
    requires
        c.rx_queue.len() > 0,
        c.rx_queue[0] == RxOps::CreditUpdate,
    ensures
        c.rx_step(p, RxEvent::Start).res == Ok::<RxAction, Error>(RxAction::Done),
        c.rx_step(p, RxEvent::Start).conn.rx_queue == c.rx_queue.skip(1),
        c.rx_queue.len() == 1 ==> c.rx_step(p, RxEvent::Start).pkt.op == VSOCK_OP_CREDIT_UPDATE
            && c.rx_step(p, RxEvent::Start).conn.last_fwd_cnt == c.fwd_cnt,
        c.rx_queue.len() > 1 ==> c.rx_step(p, RxEvent::Start).pkt.op == p.op && c.rx_step(
            p,
            RxEvent::Start,
        ).conn.last_fwd_cnt == c.last_fwd_cnt,
{
}

/// Every packet of the guest carries its credit: consuming takes the
/// peer's buffer size and forwarded count from the header, whatever the
/// operation.
pub proof fn law_consume_refreshes_credit(c: ConnState, p: PacketView)
    ensures
        c.tx_step(p, TxEvent::Start).conn.peer_buf_alloc == p.buf_alloc,
        c.tx_step(p, TxEvent::Start).conn.peer_fwd_cnt == p.fwd_cnt,
{
}

/// Consuming a credit update asks to re-arm the stream's descriptor for
/// reading and writing, falls back to a fresh registration where that
/// fails, and leaves it at that.
pub proof fn law_consume_credit_update(c: ConnState, p: PacketView, registered: bool)
    requires
        p.op == VSOCK_OP_CREDIT_UPDATE,
    ensures
        ({
            let first = c.tx_step(p, TxEvent::Start);
            &&& first.res == Ok::<TxAction, Error>(TxAction::Modify(READ_WRITE_INTEREST))
            &&& first.conn.tx_step(p, TxEvent::Modified(true)).res == Ok::<TxAction, Error>(
                TxAction::Done,
            )
            &&& first.conn.tx_step(p, TxEvent::Modified(false)).res == Ok::<TxAction, Error>(
                TxAction::Register(READ_WRITE_INTEREST),
            )
            &&& first.conn.tx_step(p, TxEvent::Registered(registered)).res == Ok::<
                TxAction,
                Error,
            >(TxAction::Done)
        }),
{
}

/// Consuming a credit request owes the guest a credit update.
pub proof fn law_consume_credit_request(c: ConnState, p: PacketView)
    requires
        p.op == VSOCK_OP_CREDIT_REQUEST,
    ensures
        c.tx_step(p, TxEvent::Start).res == Ok::<TxAction, Error>(TxAction::Done),
        c.tx_step(p, TxEvent::Start).conn.rx_queue == enqueued(c.rx_queue, RxOps::CreditUpdate),
        c.tx_step(p, TxEvent::Start).conn.rx_queue.contains(RxOps::CreditUpdate),
{
    law_enqueue_idempotent(c.rx_queue, RxOps::CreditUpdate);
}

/// Consuming a RESPONSE asks for the acknowledgement line of the
/// connection's peer port, and once that is written the connection is
/// established. The line names the port in decimal.
pub proof fn law_consume_response(c: ConnState, p: PacketView)
    requires
        p.op == VSOCK_OP_RESPONSE,
    ensures
        ({
            let first = c.tx_step(p, TxEvent::Start);
            let second = first.conn.tx_step(p, TxEvent::AckWritten(true));
            &&& first.res == Ok::<TxAction, Error>(TxAction::WriteAck(c.peer_port))
            &&& first.conn.connect == c.connect
            &&& second.res == Ok::<TxAction, Error>(TxAction::Done)
            &&& second.conn.connect
            &&& first.conn.tx_step(p, TxEvent::AckWritten(false)).res == Err::<TxAction, Error>(
                Error::UnixWrite,
            )
        }),
        ack_line(c.peer_port).subrange(3, ack_line(c.peer_port).len() - 1) == decimal(
            c.peer_port as nat,
        ),
{
}

/// Consuming an RW packet loses no byte and keeps the order: behind
/// buffered bytes the payload is buffered whole; else what the stream took
/// of it, followed by what is buffered afterwards, is the payload.
pub proof fn law_consume_rw_keeps_bytes(c: ConnState, p: PacketView, outcome: StreamWrite)
    requires
        p.op == VSOCK_OP_RW,
        p.buf is Some,
        p.wf(),
        !(outcome is Failed),
        written_len(outcome) <= p.payload().len(),
        tx_buf_fits(c.tx_buf, p.payload()),
    ensures
        ({
            let first = c.tx_step(p, TxEvent::Start);
            let second = first.conn.tx_step(p, TxEvent::Written(outcome));
            let taken = p.payload().subrange(0, written_len(outcome) as int);
            &&& c.tx_buf.len() > 0 ==> first.res == Ok::<TxAction, Error>(TxAction::Done)
                && first.conn.tx_buf == c.tx_buf + p.payload()
            &&& c.tx_buf.len() == 0 ==> first.res == Ok::<TxAction, Error>(TxAction::WriteData)
                && second.res == Ok::<TxAction, Error>(TxAction::Done) && taken
                + second.conn.tx_buf == p.payload() && second.conn.fwd_cnt == wrap32(
                c.fwd_cnt + written_len(outcome),
            ) && second.conn.rx_queue.contains(RxOps::CreditUpdate)
        }),
{
    law_enqueue_idempotent(c.refresh_credit(p).rx_queue, RxOps::CreditUpdate);
}

/// No lasting buffering: bytes are buffered only behind buffered bytes, so
/// that once the buffer is flushed the next ones go to the stream again.
pub proof fn law_send_path_bypasses_empty_buffer(c: ConnState, data: Seq<u8>)
    ensures
        c.tx_buf.len() == 0 ==> c.send_bytes(data).res == Ok::<TxAction, Error>(
            TxAction::WriteData,
        ) && c.send_bytes(data).conn == c,
        c.tx_buf.len() > 0 ==> c.send_bytes(data).res != Ok::<TxAction, Error>(
            TxAction::WriteData,
        ),
{
}

/// Consuming a SHUTDOWN of both directions owes the guest a reset exactly
/// when nothing is buffered for the stream.
pub proof fn law_consume_shutdown(c: ConnState, p: PacketView)
    requires
        p.op == VSOCK_OP_SHUTDOWN,
        shuts_both(p.flags),
    ensures
        c.tx_step(p, TxEvent::Start).res == Ok::<TxAction, Error>(TxAction::Done),
        c.tx_buf.len() > 0 ==> c.tx_step(p, TxEvent::Start).conn.rx_queue == c.rx_queue,
        c.tx_buf.len() == 0 ==> c.tx_step(p, TxEvent::Start).conn.rx_queue == enqueued(
            c.rx_queue,
            RxOps::Reset,
        ) && c.tx_step(p, TxEvent::Start).conn.rx_queue.contains(RxOps::Reset),
{
    law_enqueue_idempotent(c.rx_queue, RxOps::Reset);
}

/// Consuming never fails but for the acknowledgement line, and touches
/// nothing of the connection's identity.
pub proof fn law_consume_never_fails(c: ConnState, p: PacketView, ev: TxEvent)
    requires
        !(ev matches TxEvent::AckWritten(false)),
    ensures
        c.tx_step(p, ev).res is Ok,
        c.tx_step(p, ev).conn.local_cid == c.local_cid,
        c.tx_step(p, ev).conn.guest_cid == c.guest_cid,
        c.tx_step(p, ev).conn.local_port == c.local_port,
        c.tx_step(p, ev).conn.peer_port == c.peer_port,
{
}

/// The whole exchange of a connection that the host initiates: with
/// `Request` enqueued a REQUEST is produced; the guest's RESPONSE, once
/// acknowledged to the host application, establishes the connection; and
/// with `Rw` enqueued and data on the stream an RW packet carrying that
/// data is produced.
pub proof fn law_round_trip(
    fresh: ConnState,
    request: PacketView,
    response: PacketView,
    rw: PacketView,
    read: StreamRead,
)
    requires
        fresh == ConnState::local_init(
            fresh.local_cid,
            fresh.local_port,
            fresh.guest_cid,
            fresh.peer_port,
            fresh.epoll_fd,
        ),
        response.op == VSOCK_OP_RESPONSE,
        response.buf_alloc > 0,
        response.fwd_cnt == 0,
        rw.buf is Some,
        read matches StreamRead::Data(data) && 0 < data@.len() <= rw.capacity() && data@.len()
            <= response.buf_alloc,
    ensures
        ({
            let data = read->Data_0@;
            let c = ConnState { rx_queue: enqueued(fresh.rx_queue, RxOps::Request), ..fresh };
            let produced = c.rx_step(request, RxEvent::Start);
            let consumed = produced.conn.tx_step(response, TxEvent::Start);
            let acked = consumed.conn.tx_step(response, TxEvent::AckWritten(true));
            let c = ConnState {
                rx_queue: enqueued(acked.conn.rx_queue, RxOps::Rw),
                ..acked.conn
            };
            let asked = c.rx_step(rw, RxEvent::Start);
            let filled = asked.conn.rx_step(asked.pkt, RxEvent::Read(read));
            &&& produced.res == Ok::<RxAction, Error>(RxAction::Done)
            &&& produced.pkt.op == VSOCK_OP_REQUEST
            &&& consumed.res == Ok::<TxAction, Error>(TxAction::WriteAck(fresh.peer_port))
            &&& acked.res == Ok::<TxAction, Error>(TxAction::Done)
            &&& acked.conn.connect
            &&& asked.res == Ok::<RxAction, Error>(RxAction::ReadStream(c.max_read(rw) as usize))
            &&& data.len() <= c.max_read(rw)
            &&& filled.pkt.op == VSOCK_OP_RW
            &&& filled.pkt.len == data.len()
            &&& filled.pkt.payload() == data
        }),
{
}

} // verus!
