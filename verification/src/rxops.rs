//! The reactions that a connection can owe to the guest.

use vstd::prelude::*;

verus! {

/// One kind of pending guest-bound operation.
#[derive(Debug, Clone, Copy, PartialEq, Eq, Structural)]
pub enum RxOps {
    /// Ask the guest to accept a connection that the host initiated.
    Request,
    /// Forward data from the host stream.
    Rw,
    /// Confirm a connection that the guest initiated.
    Response,
    /// Announce the current credit.
    CreditUpdate,
    /// Tear the connection down.
    Reset,
}

} // verus!
