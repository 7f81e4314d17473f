//! Per-connection protocol engine of a virtio-vsock device backend.
//!
//! A connection carries data between vsock packets exchanged with the guest
//! and a byte stream on the host. The engine never performs I/O itself: each entry
//! point takes the outcome of the previous host operation as an event and
//! answers with the next operation that the caller has to carry out.

pub mod ack;
pub mod conn;
pub mod defs;
pub mod laws;
pub mod model;
pub mod packet;
pub mod rxops;
pub mod rxqueue;
pub mod stream;
pub mod txbuf;

pub use ack::handshake_ack;
pub use conn::VsockConnection;
pub use defs::Error;
pub use packet::{PacketView, VsockPacket};
pub use rxops::RxOps;
pub use rxqueue::RxQueue;
pub use stream::{RxAction, RxEvent, StreamRead, StreamWrite, TxAction, TxEvent, READ_WRITE_INTEREST};
pub use txbuf::LocalTxBuf;
