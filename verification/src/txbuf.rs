//! Bytes accepted from the guest that the host stream has not taken yet.

use vstd::prelude::*;
use crate::defs::Error;
use crate::stream::StreamWrite;

verus! {

/// The largest number of bytes that the buffer can hold: the limit of a
/// single allocation.
pub open spec fn tx_buf_limit() -> nat {
    isize::MAX as nat
}

/// Whether `data` can still be appended to a buffer that holds `buf`.
pub open spec fn tx_buf_fits(buf: Seq<u8>, data: Seq<u8>) -> bool {
    buf.len() + data.len() <= tx_buf_limit()
}

/// The number of bytes that a write reported as accepted.
pub open spec fn written_len(outcome: StreamWrite) -> nat {
    match outcome {
        StreamWrite::Written(n) => n as nat,
        _ => 0,
    }
}

/// Buffered bytes in the order in which the stream has to receive them.
#[derive(Debug)]
pub struct LocalTxBuf {
    buf: Vec<u8>,
}

impl View for LocalTxBuf {
    type V = Seq<u8>;

    closed spec fn view(&self) -> Seq<u8> {
        self.buf@
    }
}

impl LocalTxBuf {
    /// An empty buffer.
    pub fn new() -> (b: Self)
        ensures
            b@ == Seq::<u8>::empty(),
    {
        LocalTxBuf { buf: Vec::new() }
    }

    /// Whether nothing is buffered.
    pub fn is_empty(&self) -> (empty: bool)
        ensures
            empty == (self@.len() == 0),
    {
        self.buf.len() == 0
    }

    /// Appends `data` behind what is buffered. Fails, leaving the buffer as it
    /// was, exactly when the result would exceed the limit of an allocation.
    pub fn push(&mut self, data: &[u8]) -> (r: Result<(), Error>)
        ensures
            tx_buf_fits(old(self)@, data@) ==> r == Ok::<(), Error>(()) && final(self)@ == old(self)@
                + data@,
            !tx_buf_fits(old(self)@, data@) ==> r == Err::<(), Error>(Error::LocalTxBufAlloc)
                && final(self)@ == old(self)@,
    {
        let limit: usize = isize::MAX as usize;
        if self.buf.len() > limit || data.len() > limit - self.buf.len() {
            return Err(Error::LocalTxBufAlloc);
        }
        self.buf.extend_from_slice(data);
        Ok(())
    }

    /// The buffered bytes, oldest first: what the next write to the stream
    /// has to offer.
    pub fn pending(&self) -> (bytes: &[u8])
        ensures
            bytes@ == self@,
    {
        self.buf.as_slice()
    }

    /// Accounts for a write of `pending()` to the stream: the bytes that the
    /// stream took leave the buffer, and their number is returned. A write
    /// that would block took nothing.
    pub fn flushed(&mut self, outcome: StreamWrite) -> (r: Result<usize, Error>)
        requires
            written_len(outcome) <= old(self)@.len(),
        ensures
            outcome is Failed ==> r == Err::<usize, Error>(Error::UnixWrite) && final(self)@ == old(
                self,
            )@,
            !(outcome is Failed) ==> r == Ok::<usize, Error>(written_len(outcome) as usize)
                && final(self)@ == old(self)@.skip(written_len(outcome) as int),
    {
        match outcome {
            StreamWrite::Failed => Err(Error::UnixWrite),
            StreamWrite::WouldBlock => {
                Ok(0)
            },
            StreamWrite::Written(n) => {
                let rest = self.buf.split_off(n);
                self.buf = rest;
                Ok(n)
            },
        }
    }
}

} // verus!
