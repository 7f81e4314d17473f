//! The connection as a mathematical state machine: what producing a packet
//! for the guest and consuming a packet from the guest do to a connection's
//! state, step by step.

use vstd::prelude::*;
use crate::defs::{
    Error, CONN_TX_BUF_SIZE, VSOCK_FLAGS_SHUTDOWN_RCV, VSOCK_FLAGS_SHUTDOWN_SEND,
    VSOCK_OP_CREDIT_REQUEST, VSOCK_OP_CREDIT_UPDATE, VSOCK_OP_REQUEST, VSOCK_OP_RESPONSE,
    VSOCK_OP_RST, VSOCK_OP_RW, VSOCK_OP_SHUTDOWN, VSOCK_TYPE_STREAM,
};
use crate::packet::PacketView;
use crate::rxops::RxOps;
use crate::rxqueue::enqueued;
use crate::stream::{
    RxAction, RxEvent, StreamRead, StreamWrite, TxAction, TxEvent, READ_WRITE_INTEREST,
};
use crate::txbuf::{tx_buf_fits, written_len};

verus! {

/// The integer `x` reduced to the range of a 32-bit counter.
pub open spec fn wrap32(x: int) -> u32 {
    (x % 0x1_0000_0000) as u32
}

/// The mathematical value of a connection: everything but the stream handle.
pub struct ConnState {
    pub connect: bool,
    pub peer_port: u32,
    pub rx_queue: Seq<RxOps>,
    pub local_cid: u64,
    pub local_port: u32,
    pub guest_cid: u64,
    pub fwd_cnt: u32,
    pub last_fwd_cnt: u32,
    pub peer_buf_alloc: u32,
    pub peer_fwd_cnt: u32,
    pub rx_cnt: u32,
    pub epoll_fd: i32,
    pub tx_buf: Seq<u8>,
}

/// A connection and a packet after one step of producing, with the step's
/// result.
pub struct RxOutcome {
    pub conn: ConnState,
    pub pkt: PacketView,
    pub res: Result<RxAction, Error>,
}

/// A connection after one step of consuming, with the step's result.
pub struct TxOutcome {
    pub conn: ConnState,
    pub res: Result<TxAction, Error>,
}

impl ConnState {
    /// A connection that the host side initiates: not established, nothing
    /// pending, nothing counted, and no room known at the peer.
    pub open spec fn local_init(
        local_cid: u64,
        local_port: u32,
        guest_cid: u64,
        guest_port: u32,
        epoll_fd: i32,
    ) -> ConnState {
        ConnState {
            connect: false,
            peer_port: guest_port,
            rx_queue: Seq::empty(),
            local_cid,
            local_port,
            guest_cid,
            fwd_cnt: 0,
            last_fwd_cnt: 0,
            peer_buf_alloc: 0,
            peer_fwd_cnt: 0,
            rx_cnt: 0,
            epoll_fd,
            tx_buf: Seq::empty(),
        }
    }

    /// A connection that the guest initiates: the response is owed, and the
    /// guest has announced its buffer size.
    pub open spec fn peer_init(
        local_cid: u64,
        local_port: u32,
        guest_cid: u64,
        guest_port: u32,
        epoll_fd: i32,
        peer_buf_alloc: u32,
    ) -> ConnState {
        ConnState {
            rx_queue: seq![RxOps::Response],
            peer_buf_alloc,
            ..ConnState::local_init(local_cid, local_port, guest_cid, guest_port, epoll_fd)
        }
    }

    /// How many bytes the peer can still take: its buffer size less the bytes
    /// sent to it that it has not forwarded yet, in 32-bit wrapping
    /// arithmetic.
    pub open spec fn peer_avail_credit(self) -> u32 {
        wrap32(self.peer_buf_alloc - wrap32(self.rx_cnt - self.peer_fwd_cnt))
    }

    /// Whether the peer has to report its progress before more data is sent.
    pub open spec fn need_credit_update_from_peer(self) -> bool {
        self.peer_avail_credit() == 0
    }

    /// The most that one read from the stream may deliver into `p`: what the
    /// payload buffer holds and the peer can take.
    pub open spec fn max_read(self, p: PacketView) -> nat {
        if p.capacity() <= self.peer_avail_credit() {
            p.capacity()
        } else {
            self.peer_avail_credit() as nat
        }
    }

    /// The header that every packet of this connection starts from. Length,
    /// operation, flags and payload buffer stay as they are in `p`.
    pub open spec fn init_pkt(self, p: PacketView) -> PacketView {
        PacketView {
            src_cid: self.local_cid,
            dst_cid: self.guest_cid,
            src_port: self.local_port,
            dst_port: self.peer_port,
            pkt_type: VSOCK_TYPE_STREAM,
            buf_alloc: CONN_TX_BUF_SIZE,
            fwd_cnt: self.fwd_cnt,
            ..p
        }
    }

    /// The sent-bytes counter advanced by the packet's length, and the
    /// forwarded count marked as announced.
    pub open spec fn sent(self, p: PacketView) -> ConnState {
        ConnState {
            rx_cnt: wrap32(self.rx_cnt + p.len),
            last_fwd_cnt: self.fwd_cnt,
            ..self
        }
    }

    /// Producing, first step: the header is filled in and the oldest pending
    /// operation is taken off the queue and acted on.
    pub open spec fn rx_start(self, p: PacketView) -> RxOutcome {
        let p = self.init_pkt(p);
        if self.rx_queue.len() == 0 {
            RxOutcome { conn: self, pkt: p, res: Err(Error::NoRequestRx) }
        } else {
            let c = ConnState { rx_queue: self.rx_queue.skip(1), ..self };
            match self.rx_queue[0] {
                RxOps::Request => RxOutcome {
                    conn: c,
                    pkt: PacketView { op: VSOCK_OP_REQUEST, ..p },
                    res: Ok(RxAction::Done),
                },
                RxOps::Rw => c.rx_rw(p),
                RxOps::Response => RxOutcome {
                    conn: ConnState { connect: true, ..c },
                    pkt: PacketView { op: VSOCK_OP_RESPONSE, ..p },
                    res: Ok(RxAction::Done),
                },
                RxOps::CreditUpdate => if c.rx_queue.len() == 0 {
                    RxOutcome {
                        conn: ConnState { last_fwd_cnt: c.fwd_cnt, ..c },
                        pkt: PacketView { op: VSOCK_OP_CREDIT_UPDATE, ..p },
                        res: Ok(RxAction::Done),
                    }
                } else {
                    RxOutcome { conn: c, pkt: p, res: Ok(RxAction::Done) }
                },
                RxOps::Reset => RxOutcome { conn: c, pkt: p, res: Err(Error::NoRequestRx) },
            }
        }
    }

    /// Producing a data packet, before the stream is read: a reset where the
    /// connection is not established, a credit request where the peer has no
    /// room, else the request to read.
    pub open spec fn rx_rw(self, p: PacketView) -> RxOutcome {
        if !self.connect {
            RxOutcome { conn: self, pkt: PacketView { op: VSOCK_OP_RST, ..p }, res: Ok(RxAction::Done) }
        } else if self.need_credit_update_from_peer() {
            RxOutcome {
                conn: ConnState { last_fwd_cnt: self.fwd_cnt, ..self },
                pkt: PacketView { op: VSOCK_OP_CREDIT_REQUEST, ..p },
                res: Ok(RxAction::Done),
            }
        } else if p.buf is None {
            RxOutcome { conn: self, pkt: p, res: Err(Error::PktBufMissing) }
        } else {
            RxOutcome { conn: self, pkt: p, res: Ok(RxAction::ReadStream(self.max_read(p) as usize)) }
        }
    }

    /// Producing a data packet, after the stream was read. No bytes mean that
    /// the stream is closed: the packet announces the shutdown of both
    /// directions. Bytes go into the payload, and the stream's descriptor is
    /// to be registered before the packet counts as sent.
    pub open spec fn rx_read(self, p: PacketView, read: StreamRead) -> RxOutcome {
        match read {
            StreamRead::Failed => RxOutcome { conn: self, pkt: p, res: Err(Error::UnixRead) },
            StreamRead::Data(data) => if p.buf is None {
                RxOutcome { conn: self, pkt: p, res: Err(Error::PktBufMissing) }
            } else if data@.len() == 0 {
                let p = PacketView {
                    op: VSOCK_OP_SHUTDOWN,
                    flags: p.flags | VSOCK_FLAGS_SHUTDOWN_RCV | VSOCK_FLAGS_SHUTDOWN_SEND,
                    ..p
                };
                RxOutcome { conn: self.sent(p), pkt: p, res: Ok(RxAction::Done) }
            } else {
                RxOutcome {
                    conn: self,
                    pkt: PacketView {
                        op: VSOCK_OP_RW,
                        len: data@.len() as u32,
                        buf: Some(data@ + p.buf.unwrap().skip(data@.len() as int)),
                        ..p
                    },
                    res: Ok(RxAction::Register(READ_WRITE_INTEREST)),
                }
            },
        }
    }

    /// Producing a data packet, after the registration: the packet counts as
    /// sent where it succeeded.
    pub open spec fn rx_registered(self, p: PacketView, registered: bool) -> RxOutcome {
        if registered {
            RxOutcome { conn: self.sent(p), pkt: p, res: Ok(RxAction::Done) }
        } else {
            RxOutcome { conn: self, pkt: p, res: Err(Error::EpollAdd) }
        }
    }

    /// One step of producing a packet for the guest.
    pub open spec fn rx_step(self, p: PacketView, ev: RxEvent) -> RxOutcome {
        match ev {
            RxEvent::Start => self.rx_start(p),
            RxEvent::Read(read) => self.rx_read(p, read),
            RxEvent::Registered(registered) => self.rx_registered(p, registered),
        }
    }

    /// The send path, before the stream is written to: behind buffered bytes
    /// new ones are buffered too; else they are to be offered to the stream.
    pub open spec fn send_bytes(self, data: Seq<u8>) -> TxOutcome {
        if self.tx_buf.len() > 0 {
            if tx_buf_fits(self.tx_buf, data) {
                TxOutcome { conn: ConnState { tx_buf: self.tx_buf + data, ..self }, res: Ok(TxAction::Done) }
            } else {
                TxOutcome { conn: self, res: Err(Error::LocalTxBufAlloc) }
            }
        } else {
            TxOutcome { conn: self, res: Ok(TxAction::WriteData) }
        }
    }

    /// The send path, after the stream was written to: the bytes taken count
    /// as forwarded, a credit update is owed, and what was not taken is
    /// buffered.
    pub open spec fn send_bytes_written(self, data: Seq<u8>, outcome: StreamWrite) -> TxOutcome {
        if outcome is Failed {
            TxOutcome { conn: self, res: Err(Error::UnixWrite) }
        } else {
            let n = written_len(outcome);
            let c = ConnState {
                fwd_cnt: wrap32(self.fwd_cnt + n),
                rx_queue: enqueued(self.rx_queue, RxOps::CreditUpdate),
                ..self
            };
            if n == data.len() {
                TxOutcome { conn: c, res: Ok(TxAction::Done) }
            } else if tx_buf_fits(c.tx_buf, data.skip(n as int)) {
                TxOutcome {
                    conn: ConnState { tx_buf: c.tx_buf + data.skip(n as int), ..c },
                    res: Ok(TxAction::Done),
                }
            } else {
                TxOutcome { conn: c, res: Err(Error::LocalTxBufAlloc) }
            }
        }
    }

    /// The peer's credit as the header of `p` reports it.
    pub open spec fn refresh_credit(self, p: PacketView) -> ConnState {
        ConnState { peer_buf_alloc: p.buf_alloc, peer_fwd_cnt: p.fwd_cnt, ..self }
    }

    /// Consuming, first step: the peer's credit is taken from the header and
    /// the packet's operation is acted on.
    pub open spec fn tx_start(self, p: PacketView) -> TxOutcome {
        let c = self.refresh_credit(p);
        if p.op == VSOCK_OP_RESPONSE {
            TxOutcome { conn: c, res: Ok(TxAction::WriteAck(c.peer_port)) }
        } else if p.op == VSOCK_OP_RW {
            if p.buf is None {
                TxOutcome { conn: c, res: Ok(TxAction::Done) }
            } else {
                c.send_bytes(p.payload()).swallowed()
            }
        } else if p.op == VSOCK_OP_CREDIT_UPDATE {
            TxOutcome { conn: c, res: Ok(TxAction::Modify(READ_WRITE_INTEREST)) }
        } else if p.op == VSOCK_OP_CREDIT_REQUEST {
            TxOutcome {
                conn: ConnState { rx_queue: enqueued(c.rx_queue, RxOps::CreditUpdate), ..c },
                res: Ok(TxAction::Done),
            }
        } else if p.op == VSOCK_OP_SHUTDOWN {
            if shuts_both(p.flags) && c.tx_buf.len() == 0 {
                TxOutcome {
                    conn: ConnState { rx_queue: enqueued(c.rx_queue, RxOps::Reset), ..c },
                    res: Ok(TxAction::Done),
                }
            } else {
                TxOutcome { conn: c, res: Ok(TxAction::Done) }
            }
        } else {
            TxOutcome { conn: c, res: Ok(TxAction::Done) }
        }
    }

    /// One step of consuming a packet from the guest.
    pub open spec fn tx_step(self, p: PacketView, ev: TxEvent) -> TxOutcome {
        match ev {
            TxEvent::Start => self.tx_start(p),
            TxEvent::AckWritten(written) => if written {
                TxOutcome { conn: ConnState { connect: true, ..self }, res: Ok(TxAction::Done) }
            } else {
                TxOutcome { conn: self, res: Err(Error::UnixWrite) }
            },
            TxEvent::Written(outcome) => self.send_bytes_written(p.payload(), outcome).swallowed(),
            TxEvent::Modified(modified) => if modified {
                TxOutcome { conn: self, res: Ok(TxAction::Done) }
            } else {
                TxOutcome { conn: self, res: Ok(TxAction::Register(READ_WRITE_INTEREST)) }
            },
            TxEvent::Registered(_) => TxOutcome { conn: self, res: Ok(TxAction::Done) },
        }
    }
}

impl TxOutcome {
    /// The same step with a failure dropped: consuming a data packet reports
    /// no error of the send path.
    pub open spec fn swallowed(self) -> TxOutcome {
        match self.res {
            Ok(_) => self,
            Err(_) => TxOutcome { conn: self.conn, res: Ok(TxAction::Done) },
        }
    }
}

/// Whether `flags` ask for the shutdown of both directions.
pub open spec fn shuts_both(flags: u32) -> bool {
    flags & VSOCK_FLAGS_SHUTDOWN_RCV != 0 && flags & VSOCK_FLAGS_SHUTDOWN_SEND != 0
}

} // verus!
