//! Protocol constants and the error type shared by the whole crate.

use vstd::prelude::*;

verus! {

/// Context id of the host.
pub const VSOCK_HOST_CID: u64 = 2;

/// Packet type of a stream socket, the only type this engine speaks.
pub const VSOCK_TYPE_STREAM: u16 = 1;

/// Connection request.
pub const VSOCK_OP_REQUEST: u16 = 1;

/// Connection response.
pub const VSOCK_OP_RESPONSE: u16 = 2;

/// Connection reset.
pub const VSOCK_OP_RST: u16 = 3;

/// Connection shutdown.
pub const VSOCK_OP_SHUTDOWN: u16 = 4;

/// Data transfer.
pub const VSOCK_OP_RW: u16 = 5;

/// The sender announces its current credit.
pub const VSOCK_OP_CREDIT_UPDATE: u16 = 6;

/// The sender asks the receiver to announce its credit.
pub const VSOCK_OP_CREDIT_REQUEST: u16 = 7;

/// Shutdown flag: the sender will receive no more data.
pub const VSOCK_FLAGS_SHUTDOWN_RCV: u32 = 1;

/// Shutdown flag: the sender will send no more data.
pub const VSOCK_FLAGS_SHUTDOWN_SEND: u32 = 2;

/// Receive-buffer capacity that every connection advertises to the guest.
pub const CONN_TX_BUF_SIZE: u32 = 65536;

/// What can go wrong while a packet is produced or consumed.
#[derive(Debug, Clone, Copy, PartialEq, Eq, Structural)]
pub enum Error {
    /// A data packet was to be filled but carries no payload buffer.
    PktBufMissing,
    /// A packet was to be produced although no operation is pending.
    NoRequestRx,
    /// Reading from the host stream failed.
    UnixRead,
    /// Writing to the host stream failed for another reason than "would block".
    UnixWrite,
    /// The local transmit buffer could not grow.
    LocalTxBufAlloc,
    /// The stream's descriptor could not be registered for readiness events.
    EpollAdd,
}

} // verus!
