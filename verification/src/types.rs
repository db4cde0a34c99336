//! Data model of the driver: ports, transfers, wire protocols, the error
//! taxonomy, and the normative protocol constants.

use vstd::prelude::*;

verus! {

/// Number of zero bits clocked after every write frame, giving the DP time
/// to commit the write.
pub const IDLE_CYCLES_AFTER_WRITE: usize = 16;

/// Upper bound on submissions of one DAP operation before it times out.
pub const DAP_RETRY_COUNT: usize = 20;

/// A line reset drives at least this many consecutive high bits.
pub const SWD_LINE_RESET_BITS: usize = 50;

/// Largest batch one burst may carry. The probe's transport counts the
/// cycles of a burst in a 16-bit field, so a burst must stay under 65535
/// bits; a transfer emits at most three frames of at most 64 bits each,
/// plus one trailing drain, so this cap keeps every burst within the
/// field.
pub const MAX_TRANSFER_BATCH: usize = 340;

/// Size of the SWO capture buffer, in bytes.
pub const SWO_BUFFER_SIZE: u16 = 128;

/// DP register addresses inherited from ADIv5 (byte addresses; only bits
/// 2 and 3 travel on the wire).
pub const DP_ABORT_ADDRESS: u16 = 0x0;

pub const DP_DPIDR_ADDRESS: u16 = 0x0;

pub const DP_CTRL_STAT_ADDRESS: u16 = 0x4;

pub const DP_RDBUFF_ADDRESS: u16 = 0xC;

/// ABORT register bit that clears the sticky overrun flag.
pub const ABORT_ORUNERRCLR: u32 = 0x10;

/// ABORT register bit that clears the sticky error flag.
pub const ABORT_STKERRCLR: u32 = 0x4;

/// CTRL/STAT mask of the sticky overrun flag.
pub const CTRL_STICKYORUN: u32 = 0x2;

/// CTRL/STAT mask of the sticky error flag.
pub const CTRL_STICKYERR: u32 = 0x20;

/// Which half of the DAP a transfer addresses. The `AccessPort` index is
/// metadata only; the wire format carries a single AP-not-DP bit.
#[derive(Debug, PartialEq, Eq, Structural, Clone, Copy)]
pub enum PortType {
    DebugPort,
    AccessPort(u8),
}

#[derive(Debug, PartialEq, Eq, Structural, Clone, Copy)]
pub enum TransferDirection {
    Read,
    Write,
}

/// A transfer together with the word it writes, if it writes one.
#[derive(Debug, PartialEq, Eq, Structural, Clone, Copy)]
pub enum TransferType {
    Read,
    Write(u32),
}

/// How a single DAP transfer failed.
#[derive(Debug, PartialEq, Eq, Structural, Clone, Copy)]
pub enum DapError {
    /// All three ACK bits were high: no target answered.
    NoAcknowledge,
    /// The target asked the host to retry.
    WaitResponse,
    /// The target signalled a fault; sticky flags hold the reason.
    FaultResponse,
    /// The ACK pattern matched no response the protocol defines.
    SwdProtocol,
    /// A read's payload did not match its parity bit.
    IncorrectParity,
}

/// Lifecycle of one transfer: every transfer that went over the wire ends
/// `Ok` or `Failed`.
#[derive(Debug, PartialEq, Eq, Structural, Clone, Copy)]
pub enum TransferStatus {
    Pending,
    Success,
    Failed(DapError),
}

#[derive(Debug, PartialEq, Eq, Structural, Clone, Copy)]
pub enum WireProtocol {
    Swd,
    Jtag,
}

/// Errors of the probe driver as a whole.
#[derive(Debug, PartialEq, Eq, Clone, Copy)]
pub enum DebugProbeError {
    /// The probe cannot speak the requested wire protocol.
    UnsupportedProtocol(WireProtocol),
    /// The probe cannot run at the requested speed without exceeding it.
    UnsupportedSpeed(u32),
    NotImplemented(&'static str),
    /// The DAP retry budget was exhausted.
    Timeout,
    /// A DAP-level failure surfaced to the caller.
    Dap(DapError),
    /// No probe matched the selector.
    ProbeNotFound,
    /// The probe transport itself failed.
    ProbeSpecific,
}

/// One logical SWD transfer. On a successful read, `value` is overwritten
/// with the returned word; on a write it is input only.
#[derive(Debug, PartialEq, Eq, Structural, Clone, Copy)]
pub struct SwdTransfer {
    pub port: PortType,
    pub direction: TransferDirection,
    pub address: u16,
    pub value: u32,
    pub status: TransferStatus,
}

impl SwdTransfer {
    pub open spec fn spec_transfer_type(self) -> TransferType {
        match self.direction {
            TransferDirection::Read => TransferType::Read,
            TransferDirection::Write => TransferType::Write(self.value),
        }
    }

    pub open spec fn is_ap(self) -> bool {
        self.port is AccessPort
    }

    pub open spec fn is_read(self) -> bool {
        self.direction is Read
    }

    pub open spec fn is_write(self) -> bool {
        self.direction is Write
    }

    pub open spec fn is_ap_read(self) -> bool {
        self.is_ap() && self.is_read()
    }

    pub open spec fn is_ap_write(self) -> bool {
        self.is_ap() && self.is_write()
    }

    pub fn transfer_type(&self) -> (r: TransferType)
        ensures
            r == self.spec_transfer_type(),
    {
        match self.direction {
            TransferDirection::Read => TransferType::Read,
            TransferDirection::Write => TransferType::Write(self.value),
        }
    }

    /// A pending read of `address` on `port`.
    pub fn read(port: PortType, address: u16) -> (r: SwdTransfer)
        ensures
            r == (SwdTransfer {
                port,
                direction: TransferDirection::Read,
                address,
                value: 0,
                status: TransferStatus::Pending,
            }),
    {
        SwdTransfer {
            port,
            direction: TransferDirection::Read,
            address,
            value: 0,
            status: TransferStatus::Pending,
        }
    }

    /// A pending write of `value` to `address` on `port`.
    pub fn write(port: PortType, address: u16, value: u32) -> (r: SwdTransfer)
        ensures
            r == (SwdTransfer {
                port,
                direction: TransferDirection::Write,
                address,
                value,
                status: TransferStatus::Pending,
            }),
    {
        SwdTransfer {
            port,
            direction: TransferDirection::Write,
            address,
            value,
            status: TransferStatus::Pending,
        }
    }
}

} // verus!
