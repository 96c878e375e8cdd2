//! ESB error types.

use vstd::prelude::*;

verus! {

/// ESB operation errors.
#[derive(Debug, Clone, Copy, PartialEq, Eq, Structural)]
pub enum Error {
    /// TX buffer full: no space to queue another packet.
    TxFull,
    /// RX buffer empty: no packet available.
    RxEmpty,
    /// Invalid parameter (e.g. payload length > 252).
    InvalidParam,
    /// Maximum retransmits reached (PTX).
    MaxRetransmit,
    /// Radio not initialized or in wrong state.
    NotReady,
    /// Address configuration error.
    InvalidAddress,
    /// Packet pool exhausted: no free buffers for DMA.
    OutOfMemory,
    /// Cannot suspend: the state machine is mid-transaction.
    Busy,
    /// The multi-protocol service layer refused a call.
    Mpsl,
}

} // verus!
