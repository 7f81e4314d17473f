//! A vsock packet as plain values: the header fields and the payload buffer.

use vstd::prelude::*;
use vstd::slice::slice_subrange;

verus! {

/// A vsock packet: its header, field by field, and the buffer that holds or
/// will hold its payload. A packet without payload has no buffer.
#[derive(Debug, PartialEq, Eq)]
pub struct VsockPacket {
    /// Context id of the sender.
    pub src_cid: u64,
    /// Context id of the receiver.
    pub dst_cid: u64,
    /// The sender's port number.
    pub src_port: u32,
    /// The receiver's port number.
    pub dst_port: u32,
    /// Number of payload bytes.
    pub len: u32,
    /// Socket type.
    pub pkt_type: u16,
    /// Operation code.
    pub op: u16,
    /// Operation flags.
    pub flags: u32,
    /// Receive-buffer capacity of the sender.
    pub buf_alloc: u32,
    /// Bytes that the sender has forwarded to its own side so far.
    pub fwd_cnt: u32,
    /// Payload buffer; the payload is its first `len` bytes.
    pub buf: Option<Vec<u8>>,
}

/// The mathematical value of a packet.
pub struct PacketView {
    pub src_cid: u64,
    pub dst_cid: u64,
    pub src_port: u32,
    pub dst_port: u32,
    pub len: u32,
    pub pkt_type: u16,
    pub op: u16,
    pub flags: u32,
    pub buf_alloc: u32,
    pub fwd_cnt: u32,
    pub buf: Option<Seq<u8>>,
}

impl PacketView {
    /// The payload fits into the buffer.
    pub open spec fn wf(self) -> bool {
        self.buf matches Some(b) ==> self.len <= b.len()
    }

    /// The number of bytes that the payload buffer can take.
    pub open spec fn capacity(self) -> nat {
        match self.buf {
            Some(b) => b.len(),
            None => 0,
        }
    }

    /// The payload bytes; none where the packet has no buffer.
    pub open spec fn payload(self) -> Seq<u8> {
        match self.buf {
            Some(b) => b.subrange(0, self.len as int),
            None => Seq::empty(),
        }
    }
}

impl View for VsockPacket {
    type V = PacketView;

    open spec fn view(&self) -> PacketView {
        PacketView {
            src_cid: self.src_cid,
            dst_cid: self.dst_cid,
            src_port: self.src_port,
            dst_port: self.dst_port,
            len: self.len,
            pkt_type: self.pkt_type,
            op: self.op,
            flags: self.flags,
            buf_alloc: self.buf_alloc,
            fwd_cnt: self.fwd_cnt,
            buf: match self.buf {
                Some(b) => Some(b@),
                None => None,
            },
        }
    }
}

impl VsockPacket {
    /// A packet with an all-zero header over the given payload buffer.
    pub fn new(buf: Option<Vec<u8>>) -> (pkt: Self)
        ensures
            pkt.buf == buf,
            pkt@ == (PacketView {
                src_cid: 0,
                dst_cid: 0,
                src_port: 0,
                dst_port: 0,
                len: 0,
                pkt_type: 0,
                op: 0,
                flags: 0,
                buf_alloc: 0,
                fwd_cnt: 0,
                buf: pkt@.buf,
            }),
    {
        VsockPacket {
            src_cid: 0,
            dst_cid: 0,
            src_port: 0,
            dst_port: 0,
            len: 0,
            pkt_type: 0,
            op: 0,
            flags: 0,
            buf_alloc: 0,
            fwd_cnt: 0,
            buf,
        }
    }

    /// Overwrites the first bytes of the payload buffer with `data`.
    pub(crate) fn fill(&mut self, data: &[u8])
        requires
            old(self)@.buf is Some,
            data@.len() <= old(self)@.capacity(),
        ensures
            final(self)@ == (PacketView {
                buf: Some(data@ + old(self)@.buf.unwrap().skip(data@.len() as int)),
                ..old(self)@
            }),
    {
        match &mut self.buf {
            Some(b) => {
                let mut i: usize = 0;
                while i < data.len()
                    invariant
                        i <= data@.len() <= b@.len(),
                        b@.len() == old(self)@.buf.unwrap().len(),
                        forall|j: int| 0 <= j < i ==> b@[j] == data@[j],
                        forall|j: int| i <= j < b@.len() ==> b@[j] == old(self)@.buf.unwrap()[j],
                    decreases data@.len() - i,
                {
                    b.set(i, data[i]);
                    i += 1;
                }
                assert(b@ =~= data@ + old(self)@.buf.unwrap().skip(data@.len() as int));
            },
            None => {},
        }
    }

    /// The payload: the first `len` bytes of the buffer, or nothing where the
    /// packet has no buffer.
    pub fn payload(&self) -> (data: Option<&[u8]>)
        requires
            self@.wf(),
        ensures
            self@.buf is None ==> data is None,
            self@.buf is Some ==> data is Some && data.unwrap()@ == self@.payload(),
    {
        match &self.buf {
            Some(b) => Some(slice_subrange(b.as_slice(), 0, self.len as usize)),
            None => None,
        }
    }
}

} // verus!
