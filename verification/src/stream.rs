//! What the host side reports back to the engine, and what the engine asks of
//! it. The caller owns the stream and the readiness registration; the engine
//! sees their outcomes as plain values.

use vstd::prelude::*;

verus! {

/// Outcome of one read from the host stream.
#[derive(Debug)]
pub enum StreamRead {
    /// The read succeeded and delivered these bytes; none means the stream
    /// was closed.
    Data(Vec<u8>),
    /// The read failed.
    Failed,
}

/// Outcome of one write to the host stream.
#[derive(Debug, Clone, Copy, PartialEq, Eq, Structural)]
pub enum StreamWrite {
    /// The stream accepted this many of the bytes offered.
    Written(usize),
    /// The stream cannot take data right now.
    WouldBlock,
    /// The write failed for any other reason.
    Failed,
}

/// What happened on the host side since the engine last spoke while a packet
/// for the guest is produced.
#[derive(Debug)]
pub enum RxEvent {
    /// Nothing yet: a packet is to be produced.
    Start,
    /// The read that the engine asked for has returned.
    Read(StreamRead),
    /// The registration that the engine asked for has succeeded or failed.
    Registered(bool),
}

/// What the caller has to do next while a packet for the guest is produced.
#[derive(Debug, Clone, Copy, PartialEq, Eq, Structural)]
pub enum RxAction {
    /// Nothing: the packet is complete.
    Done,
    /// Read at most this many bytes from the stream, once.
    ReadStream(usize),
    /// Register the stream's descriptor with this readiness interest.
    Register(u32),
}

/// What happened on the host side since the engine last spoke while a packet
/// from the guest is consumed.
#[derive(Debug, Clone, Copy, PartialEq, Eq, Structural)]
pub enum TxEvent {
    /// Nothing yet: a packet is to be consumed.
    Start,
    /// The acknowledgement line was written in full, or writing it failed.
    AckWritten(bool),
    /// The write of the payload has returned.
    Written(StreamWrite),
    /// Changing the registered readiness interest has succeeded or failed.
    Modified(bool),
    /// The fresh registration has succeeded or failed.
    Registered(bool),
}

/// What the caller has to do next while a packet from the guest is consumed.
#[derive(Debug, Clone, Copy, PartialEq, Eq, Structural)]
pub enum TxAction {
    /// Nothing: the packet is consumed.
    Done,
    /// Write the acknowledgement line for this port, the connection's peer
    /// port, to the stream, in full.
    WriteAck(u32),
    /// Offer the packet's payload to the stream in one write.
    WriteData,
    /// Change the readiness interest registered for the stream's descriptor
    /// to this one.
    Modify(u32),
    /// Register the stream's descriptor afresh with this readiness interest.
    Register(u32),
}

/// Readiness interest in a descriptor becoming readable (bit 0x1) or writable
/// (bit 0x4), as the bit set that the event facility takes.
pub const READ_WRITE_INTEREST: u32 = 0x5;

/// Calls `epoll::Events::bits` on the union of `epoll::Events::EPOLLIN` and
/// `epoll::Events::EPOLLOUT`. Trusted, not proved: the union's bits are 0x1
/// and 0x4, the values that the crate takes from libc for the two flags.
#[verifier::external_body]
pub(crate) fn interest_read_write() -> (bits: u32)
    ensures
        bits == READ_WRITE_INTEREST,
{
    (epoll::Events::EPOLLIN | epoll::Events::EPOLLOUT).bits()
}

} // verus!
