//! ESB suspend/resume saved state types.

use crate::addresses::MAX_PIPES;
use vstd::prelude::*;

verus! {

/// Saved ESB protocol state that survives across suspend/resume cycles.
///
/// Stored by the caller between `suspend()` and `restore()` calls.
#[derive(Debug, Clone, Copy, PartialEq, Eq)]
pub struct EsbSavedState {
    /// Per-pipe PID counters (2-bit values, for duplicate detection).
    pub pid: [u8; MAX_PIPES],
    /// Per-pipe last-received CRC (for duplicate detection on the PRX side).
    pub last_crc: [u16; MAX_PIPES],
    /// Whether the duplicate-detection entry for each pipe is initialized.
    pub last_valid: [bool; MAX_PIPES],
    /// Active TX pipe at time of suspend (PTX only; ignored for PRX).
    pub tx_pipe: u8,
    /// Retransmit attempt counter at time of suspend (PTX only).
    pub attempts: u8,
    /// Protocol state at time of suspend.
    pub protocol_state: SavedProtocolState,
}

/// Simplified protocol state for save/restore.
#[derive(Debug, Clone, Copy, PartialEq, Eq, Structural)]
pub enum SavedProtocolState {
    /// Was idle: clean suspend.
    Idle,
    /// Was mid-transaction when forced to suspend. The packet was dropped; the
    /// attempt count is preserved for diagnostics.
    ForcedIdle { dropped_attempt: u8 },
}

impl Default for EsbSavedState {
    fn default() -> (s: Self)
        ensures
            s == (EsbSavedState {
                pid: [0u8; MAX_PIPES],
                last_crc: [0u16; MAX_PIPES],
                last_valid: [false; MAX_PIPES],
                tx_pipe: 0,
                attempts: 0,
                protocol_state: SavedProtocolState::Idle,
            }),
    {
        EsbSavedState {
            pid: [0u8; MAX_PIPES],
            last_crc: [0u16; MAX_PIPES],
            last_valid: [false; MAX_PIPES],
            tx_pipe: 0,
            attempts: 0,
            protocol_state: SavedProtocolState::Idle,
        }
    }
}

} // verus!
