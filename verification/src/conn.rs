//! One vsock connection between a guest port and a host stream.

use vstd::prelude::*;
use vstd::slice::slice_subrange;
use crate::defs::{
    Error, CONN_TX_BUF_SIZE, VSOCK_FLAGS_SHUTDOWN_RCV, VSOCK_FLAGS_SHUTDOWN_SEND,
    VSOCK_OP_CREDIT_REQUEST, VSOCK_OP_CREDIT_UPDATE, VSOCK_OP_REQUEST, VSOCK_OP_RESPONSE,
    VSOCK_OP_RST, VSOCK_OP_RW, VSOCK_OP_SHUTDOWN, VSOCK_TYPE_STREAM,
};
use crate::model::{ConnState, RxOutcome, TxOutcome};
use crate::packet::VsockPacket;
use crate::rxops::RxOps;
use crate::rxqueue::RxQueue;
use crate::stream::{
    interest_read_write, RxAction, RxEvent, StreamRead, StreamWrite, TxAction, TxEvent,
};
use crate::txbuf::{written_len, LocalTxBuf};

verus! {

/// The state of one connection. The connection owns the host stream but
/// never touches it: reading, writing and registering for readiness are the
/// caller's part, between the steps of `recv_pkt` and `send_pkt`.
#[derive(Debug)]
pub struct VsockConnection<S> {
    /// Host-side stream of this connection.
    pub stream: S,
    /// Whether the handshake is complete.
    pub connect: bool,
    /// Where the application in the guest listens or connects from.
    pub peer_port: u32,
    /// Operations owed to the guest.
    pub rx_queue: RxQueue,
    /// Context id of the host.
    pub local_cid: u64,
    /// Where the application on the host listens.
    pub local_port: u32,
    /// Context id of the guest.
    pub guest_cid: u64,
    /// Bytes forwarded to the stream so far.
    pub fwd_cnt: u32,
    /// The value of `fwd_cnt` that the peer was last told.
    pub last_fwd_cnt: u32,
    /// Size of the buffer that the peer has for this connection.
    pub peer_buf_alloc: u32,
    /// Bytes that the peer has forwarded so far, as it last reported.
    pub peer_fwd_cnt: u32,
    /// Bytes sent to the guest so far.
    pub rx_cnt: u32,
    /// Descriptor of the event facility that watches the stream.
    pub epoll_fd: i32,
    /// Bytes that the stream has not taken yet.
    pub tx_buf: LocalTxBuf,
}

impl<S> View for VsockConnection<S> {
    type V = ConnState;

    open spec fn view(&self) -> ConnState {
        ConnState {
            connect: self.connect,
            peer_port: self.peer_port,
            rx_queue: self.rx_queue@,
            local_cid: self.local_cid,
            local_port: self.local_port,
            guest_cid: self.guest_cid,
            fwd_cnt: self.fwd_cnt,
            last_fwd_cnt: self.last_fwd_cnt,
            peer_buf_alloc: self.peer_buf_alloc,
            peer_fwd_cnt: self.peer_fwd_cnt,
            rx_cnt: self.rx_cnt,
            epoll_fd: self.epoll_fd,
            tx_buf: self.tx_buf@,
        }
    }
}

impl<S> VsockConnection<S> {
    /// A connection that the host side initiates. Nothing is pending yet and
    /// the peer's buffer size is unknown, so no data may be sent.
    pub fn new_local_init(
        stream: S,
        local_cid: u64,
        local_port: u32,
        guest_cid: u64,
        guest_port: u32,
        epoll_fd: i32,
    ) -> (conn: Self)
        ensures
            conn.stream == stream,
            conn@ == ConnState::local_init(local_cid, local_port, guest_cid, guest_port, epoll_fd),
    {
        Self {
            stream,
            connect: false,
            peer_port: guest_port,
            rx_queue: RxQueue::new(),
            local_cid,
            local_port,
            guest_cid,
            fwd_cnt: 0,
            last_fwd_cnt: 0,
            peer_buf_alloc: 0,
            peer_fwd_cnt: 0,
            rx_cnt: 0,
            epoll_fd,
            tx_buf: LocalTxBuf::new(),
        }
    }

    /// A connection that the guest initiates: the response is pending, and
    /// the guest's buffer size is known from its request.
    pub fn new_peer_init(
        stream: S,
        local_cid: u64,
        local_port: u32,
        guest_cid: u64,
        guest_port: u32,
        epoll_fd: i32,
        peer_buf_alloc: u32,
    ) -> (conn: Self)
        ensures
            conn.stream == stream,
            conn@ == ConnState::peer_init(
                local_cid,
                local_port,
                guest_cid,
                guest_port,
                epoll_fd,
                peer_buf_alloc,
            ),
    {
        let mut rx_queue = RxQueue::new();
        rx_queue.enqueue(RxOps::Response);
        Self {
            stream,
            connect: false,
            peer_port: guest_port,
            rx_queue,
            local_cid,
            local_port,
            guest_cid,
            fwd_cnt: 0,
            last_fwd_cnt: 0,
            peer_buf_alloc,
            peer_fwd_cnt: 0,
            rx_cnt: 0,
            epoll_fd,
            tx_buf: LocalTxBuf::new(),
        }
    }

    /// Sets the guest application's port number, once it is known.
    pub fn set_peer_port(&mut self, peer_port: u32)
        ensures
            final(self)@ == (ConnState { peer_port, ..old(self)@ }),
            final(self).stream == old(self).stream,
            final(self)@.rx_queue.no_duplicates(),
    {
        proof {
            use_type_invariant(&self.rx_queue);
        }
        self.peer_port = peer_port;
    }

    /// How many bytes may be sent to the peer without overflowing its buffer.
    pub fn peer_avail_credit(&self) -> (credit: usize)
        ensures
            credit == self@.peer_avail_credit(),
    {
        let in_flight: u32 = self.rx_cnt.wrapping_sub(self.peer_fwd_cnt);
        let credit: u32 = self.peer_buf_alloc.wrapping_sub(in_flight);
        credit as usize
    }

    /// Whether the peer has to report its progress before more data is sent.
    pub fn need_credit_update_from_peer(&self) -> (need: bool)
        ensures
            need == self@.need_credit_update_from_peer(),
    {
        self.peer_avail_credit() == 0
    }

    /// Fills in the header fields that every packet of this connection
    /// carries.
    pub fn init_pkt(&self, pkt: &mut VsockPacket)
        ensures
            final(pkt)@ == self@.init_pkt(old(pkt)@),
    {
        pkt.src_cid = self.local_cid;
        pkt.dst_cid = self.guest_cid;
        pkt.src_port = self.local_port;
        pkt.dst_port = self.peer_port;
        pkt.pkt_type = VSOCK_TYPE_STREAM;
        pkt.buf_alloc = CONN_TX_BUF_SIZE;
        pkt.fwd_cnt = self.fwd_cnt;
    }

    /// Counts the packet as sent to the guest.
    fn count_sent(&mut self, pkt: &VsockPacket)
        ensures
            final(self)@ == old(self)@.sent(pkt@),
            final(self).stream == old(self).stream,
            final(self)@.rx_queue.no_duplicates(),
    {
        proof {
            use_type_invariant(&self.rx_queue);
        }
        self.rx_cnt = self.rx_cnt.wrapping_add(pkt.len);
        self.last_fwd_cnt = self.fwd_cnt;
    }

    /// First step of producing a packet.
    fn recv_start(&mut self, pkt: &mut VsockPacket) -> (r: Result<RxAction, Error>)
        ensures
            (RxOutcome { conn: final(self)@, pkt: final(pkt)@, res: r }) == old(self)@.rx_start(
                old(pkt)@,
            ),
            final(self).stream == old(self).stream,
            final(self)@.rx_queue.no_duplicates(),
    {
        self.init_pkt(pkt);
        match self.rx_queue.dequeue() {
            Some(RxOps::Request) => {
                pkt.op = VSOCK_OP_REQUEST;
                Ok(RxAction::Done)
            },
            Some(RxOps::Rw) => {
                if !self.connect {
                    pkt.op = VSOCK_OP_RST;
                    return Ok(RxAction::Done);
                }
                if self.need_credit_update_from_peer() {
                    self.last_fwd_cnt = self.fwd_cnt;
                    pkt.op = VSOCK_OP_CREDIT_REQUEST;
                    return Ok(RxAction::Done);
                }
                let capacity: usize = match &pkt.buf {
                    Some(b) => b.len(),
                    None => {
                        return Err(Error::PktBufMissing);
                    },
                };
                let credit: usize = self.peer_avail_credit();
                let max_read_len: usize = if capacity <= credit {
                    capacity
                } else {
                    credit
                };
                Ok(RxAction::ReadStream(max_read_len))
            },
            Some(RxOps::Response) => {
                self.connect = true;
                pkt.op = VSOCK_OP_RESPONSE;
                Ok(RxAction::Done)
            },
            Some(RxOps::CreditUpdate) => {
                if !self.rx_queue.pending_rx() {
                    pkt.op = VSOCK_OP_CREDIT_UPDATE;
                    self.last_fwd_cnt = self.fwd_cnt;
                }
                Ok(RxAction::Done)
            },
            _ => Err(Error::NoRequestRx),
        }
    }

    /// Second step of producing a data packet: what the stream delivered
    /// goes into the packet.
    fn recv_read(&mut self, pkt: &mut VsockPacket, read: StreamRead) -> (r: Result<
        RxAction,
        Error,
    >)
        requires
            read matches StreamRead::Data(data) ==> data@.len() <= old(self)@.max_read(old(pkt)@),
        ensures
            (RxOutcome { conn: final(self)@, pkt: final(pkt)@, res: r }) == old(self)@.rx_read(
                old(pkt)@,
                read,
            ),
            final(self).stream == old(self).stream,
            final(self)@.rx_queue.no_duplicates(),
    {
        proof {
            use_type_invariant(&self.rx_queue);
        }
        let data: Vec<u8> = match read {
            StreamRead::Data(data) => data,
            StreamRead::Failed => {
                return Err(Error::UnixRead);
            },
        };
        if pkt.buf.is_none() {
            return Err(Error::PktBufMissing);
        }
        if data.len() == 0 {
            pkt.op = VSOCK_OP_SHUTDOWN;
            pkt.flags = pkt.flags | VSOCK_FLAGS_SHUTDOWN_RCV | VSOCK_FLAGS_SHUTDOWN_SEND;
            self.count_sent(pkt);
            Ok(RxAction::Done)
        } else {
            pkt.fill(data.as_slice());
            pkt.op = VSOCK_OP_RW;
            pkt.len = data.len() as u32;
            Ok(RxAction::Register(interest_read_write()))
        }
    }

    /// Last step of producing a data packet.
    fn recv_registered(&mut self, pkt: &VsockPacket, registered: bool) -> (r: Result<
        RxAction,
        Error,
    >)
        ensures
            (RxOutcome { conn: final(self)@, pkt: pkt@, res: r }) == old(self)@.rx_registered(
                pkt@,
                registered,
            ),
            final(self).stream == old(self).stream,
            final(self)@.rx_queue.no_duplicates(),
    {
        proof {
            use_type_invariant(&self.rx_queue);
        }
        if registered {
            self.count_sent(pkt);
            Ok(RxAction::Done)
        } else {
            Err(Error::EpollAdd)
        }
    }

    /// Produces a packet for the guest, one step per call. The first call
    /// takes `RxEvent::Start`; each later call takes the outcome of the
    /// action that the call before it returned, until that is
    /// `RxAction::Done` or an error.
    pub fn recv_pkt(&mut self, pkt: &mut VsockPacket, ev: RxEvent) -> (r: Result<RxAction, Error>)
        requires
            ev matches RxEvent::Read(StreamRead::Data(data)) ==> data@.len() <= old(self)@.max_read(
                old(pkt)@,
            ),
        ensures
            (RxOutcome { conn: final(self)@, pkt: final(pkt)@, res: r }) == old(self)@.rx_step(
                old(pkt)@,
                ev,
            ),
            final(self).stream == old(self).stream,
            final(self)@.rx_queue.no_duplicates(),
    {
        match ev {
            RxEvent::Start => self.recv_start(pkt),
            RxEvent::Read(read) => self.recv_read(pkt, read),
            RxEvent::Registered(registered) => self.recv_registered(pkt, registered),
        }
    }

    /// The send path, before the stream is written to. While bytes are
    /// buffered `buf` is buffered behind them (`TxAction::Done`); else `buf`
    /// is to be offered to the stream (`TxAction::WriteData`).
    pub fn send_bytes(&mut self, buf: &[u8]) -> (r: Result<TxAction, Error>)
        ensures
            (TxOutcome { conn: final(self)@, res: r }) == old(self)@.send_bytes(buf@),
            final(self).stream == old(self).stream,
            final(self)@.rx_queue.no_duplicates(),
    {
        proof {
            use_type_invariant(&self.rx_queue);
        }
        if !self.tx_buf.is_empty() {
            return match self.tx_buf.push(buf) {
                Ok(()) => Ok(TxAction::Done),
                Err(e) => Err(e),
            };
        }
        Ok(TxAction::WriteData)
    }

    /// The send path, after `buf` was offered to the stream. A write that
    /// would block counts as a write of no bytes.
    pub fn send_bytes_written(&mut self, buf: &[u8], outcome: StreamWrite) -> (r: Result<
        TxAction,
        Error,
    >)
        requires
            written_len(outcome) <= buf@.len(),
        ensures
            (TxOutcome { conn: final(self)@, res: r }) == old(self)@.send_bytes_written(
                buf@,
                outcome,
            ),
            final(self).stream == old(self).stream,
            final(self)@.rx_queue.no_duplicates(),
    {
        proof {
            use_type_invariant(&self.rx_queue);
        }
        let written_count: usize = match outcome {
            StreamWrite::Written(cnt) => cnt,
            StreamWrite::WouldBlock => 0,
            StreamWrite::Failed => {
                return Err(Error::UnixWrite);
            },
        };
        let forwarded: u32 = ((written_count as u64) % 0x1_0000_0000) as u32;
        self.fwd_cnt = self.fwd_cnt.wrapping_add(forwarded);
        self.rx_queue.enqueue(RxOps::CreditUpdate);
        if written_count != buf.len() {
            let rest = slice_subrange(buf, written_count, buf.len());
            return match self.tx_buf.push(rest) {
                Ok(()) => Ok(TxAction::Done),
                Err(e) => Err(e),
            };
        }
        Ok(TxAction::Done)
    }

    /// First step of consuming a packet.
    fn send_start(&mut self, pkt: &VsockPacket) -> (r: Result<TxAction, Error>)
        requires
            pkt@.wf(),
        ensures
            (TxOutcome { conn: final(self)@, res: r }) == old(self)@.tx_start(pkt@),
            final(self).stream == old(self).stream,
            final(self)@.rx_queue.no_duplicates(),
    {
        proof {
            use_type_invariant(&self.rx_queue);
        }
        self.peer_buf_alloc = pkt.buf_alloc;
        self.peer_fwd_cnt = pkt.fwd_cnt;

        if pkt.op == VSOCK_OP_RESPONSE {
            Ok(TxAction::WriteAck(self.peer_port))
        } else if pkt.op == VSOCK_OP_RW {
            match pkt.payload() {
                None => Ok(TxAction::Done),
                Some(data) => match self.send_bytes(data) {
                    Ok(action) => Ok(action),
                    Err(_) => Ok(TxAction::Done),
                },
            }
        } else if pkt.op == VSOCK_OP_CREDIT_UPDATE {
            Ok(TxAction::Modify(interest_read_write()))
        } else if pkt.op == VSOCK_OP_CREDIT_REQUEST {
            self.rx_queue.enqueue(RxOps::CreditUpdate);
            Ok(TxAction::Done)
        } else if pkt.op == VSOCK_OP_SHUTDOWN {
            let recv_off = pkt.flags & VSOCK_FLAGS_SHUTDOWN_RCV != 0;
            let send_off = pkt.flags & VSOCK_FLAGS_SHUTDOWN_SEND != 0;
            if recv_off && send_off && self.tx_buf.is_empty() {
                self.rx_queue.enqueue(RxOps::Reset);
            }
            Ok(TxAction::Done)
        } else {
            Ok(TxAction::Done)
        }
    }

    /// Consumes a packet from the guest, one step per call. The first call
    /// takes `TxEvent::Start`; each later call takes the outcome of the
    /// action that the call before it returned, until that is
    /// `TxAction::Done` or an error. Only a failed write of the
    /// acknowledgement line is reported as an error.
    pub fn send_pkt(&mut self, pkt: &VsockPacket, ev: TxEvent) -> (r: Result<TxAction, Error>)
        requires
            pkt@.wf(),
            ev matches TxEvent::Written(outcome) ==> written_len(outcome) <= pkt@.payload().len(),
        ensures
            (TxOutcome { conn: final(self)@, res: r }) == old(self)@.tx_step(pkt@, ev),
            final(self).stream == old(self).stream,
            final(self)@.rx_queue.no_duplicates(),
    {
        proof {
            use_type_invariant(&self.rx_queue);
        }
        match ev {
            TxEvent::Start => self.send_start(pkt),
            TxEvent::AckWritten(written) => {
                if written {
                    self.connect = true;
                    Ok(TxAction::Done)
                } else {
                    Err(Error::UnixWrite)
                }
            },
            TxEvent::Written(outcome) => {
                let sent = match pkt.payload() {
                    Some(data) => self.send_bytes_written(data, outcome),
                    None => {
                        let data: Vec<u8> = Vec::new();
                        self.send_bytes_written(data.as_slice(), outcome)
                    },
                };
                match sent {
                    Ok(action) => Ok(action),
                    Err(_) => Ok(TxAction::Done),
                }
            },
            TxEvent::Modified(modified) => {
                if modified {
                    Ok(TxAction::Done)
                } else {
                    Ok(TxAction::Register(interest_read_write()))
                }
            },
            TxEvent::Registered(_) => Ok(TxAction::Done),
        }
    }
}

} // verus!
