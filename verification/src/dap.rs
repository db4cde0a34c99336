//! Per-register DAP operations with WAIT/FAULT recovery.
//!
//! Each operation submits a single-transfer batch through the sequencer,
//! up to [`DAP_RETRY_COUNT`] times. A WAIT answer clears the sticky
//! overrun flag and retries; a FAULT reads CTRL/STAT, clears whichever
//! sticky flags it finds, and surfaces the fault; any other failure runs
//! an SWD line reset and retries; an exhausted budget times out.

use vstd::prelude::*;
use vstd::slice::slice_subrange;
use crate::bits::repeated_bits;
use crate::io_sequence::IoSequence;
use crate::probe::RawSwdIo;
use crate::sequencer::{perform_transfers, spec_transfer_results};
use crate::swd::{build_swd_transfer, parse_swd_response, spec_parse_response};
use crate::types::{
    DapError, DebugProbeError, PortType, SwdTransfer, TransferDirection, TransferStatus,
    TransferType, ABORT_ORUNERRCLR, ABORT_STKERRCLR, CTRL_STICKYERR, CTRL_STICKYORUN,
    DAP_RETRY_COUNT, DP_ABORT_ADDRESS, DP_CTRL_STAT_ADDRESS, SWD_LINE_RESET_BITS,
};

verus! {

/// What the retry loop does with the status one submission came back with.
#[derive(Debug, PartialEq, Eq, Structural, Clone, Copy)]
pub enum RetryAction {
    /// The transfer went through: hand its result to the caller.
    Deliver,
    /// No response was recorded; submit again (defensive, normally
    /// unreachable).
    Resubmit,
    /// WAIT: clear the sticky overrun flag, then submit again.
    ClearOverrun,
    /// FAULT: read CTRL/STAT, clear the sticky flags, surface the fault.
    HandleFault,
    /// A protocol-level failure: run a line reset, then submit again.
    LineReset,
}

pub open spec fn spec_retry_decision(status: TransferStatus) -> RetryAction {
    match status {
        TransferStatus::Success => RetryAction::Deliver,
        TransferStatus::Pending => RetryAction::Resubmit,
        TransferStatus::Failed(DapError::WaitResponse) => RetryAction::ClearOverrun,
        TransferStatus::Failed(DapError::FaultResponse) => RetryAction::HandleFault,
        TransferStatus::Failed(_) => RetryAction::LineReset,
    }
}

/// The retry loop's whole decision table, as a function of the submission
/// status alone.
pub fn retry_decision(status: TransferStatus) -> (r: RetryAction)
    ensures
        r == spec_retry_decision(status),
{
    match status {
        TransferStatus::Success => RetryAction::Deliver,
        TransferStatus::Pending => RetryAction::Resubmit,
        TransferStatus::Failed(DapError::WaitResponse) => RetryAction::ClearOverrun,
        TransferStatus::Failed(DapError::FaultResponse) => RetryAction::HandleFault,
        TransferStatus::Failed(_) => RetryAction::LineReset,
    }
}

/// A status on which the loop stops submitting: the result is delivered,
/// or the fault is surfaced.
pub open spec fn is_terminal(status: TransferStatus) -> bool {
    spec_retry_decision(status) is Deliver || spec_retry_decision(status) is HandleFault
}

/// How many times the retry loop submits the requested transfer when the
/// `k`-th submission comes back with `statuses[k]`: it stops at the first
/// terminal status, and never before exhausting `budget` otherwise.
pub open spec fn submission_count(statuses: Seq<TransferStatus>, budget: nat) -> nat
    decreases budget,
{
    if budget == 0 || statuses.len() == 0 {
        0
    } else if is_terminal(statuses[0]) {
        1
    } else {
        1 + submission_count(statuses.skip(1), (budget - 1) as nat)
    }
}

/// The retry cap: whatever statuses come back, one DAP operation submits
/// its transfer at most [`DAP_RETRY_COUNT`] times.
pub proof fn lemma_retry_cap(statuses: Seq<TransferStatus>)
    ensures
        submission_count(statuses, DAP_RETRY_COUNT as nat) <= DAP_RETRY_COUNT,
{
    lemma_submission_count_le_budget(statuses, DAP_RETRY_COUNT as nat);
}

proof fn lemma_submission_count_le_budget(statuses: Seq<TransferStatus>, budget: nat)
    ensures
        submission_count(statuses, budget) <= budget,
    decreases budget,
{
    if budget > 0 && statuses.len() > 0 && !is_terminal(statuses[0]) {
        lemma_submission_count_le_budget(statuses.skip(1), (budget - 1) as nat);
    }
}

/// Drive at least 50 high bits and read DPIDR, returning to a known SWD
/// state; a second attempt covers a target caught mid-transfer. `Ok` is
/// only ever returned when the bits an attempt sampled parse as a
/// successful DPIDR read at the slot after the reset run.
pub fn swd_line_reset<P: RawSwdIo>(probe: &mut P) -> (r: Result<(), DebugProbeError>)
    ensures
        r is Ok ==> exists|bits: Seq<bool>|
            {
                &&& bits.len() == SWD_LINE_RESET_BITS + 48
                &&& (#[trigger] spec_parse_response(
                    bits.skip(SWD_LINE_RESET_BITS as int),
                    TransferType::Read,
                )) is Ok
            },
{
    let mut io_sequence = IoSequence::new();
    let ones = repeated_bits(true, SWD_LINE_RESET_BITS);
    io_sequence.add_output_sequence(ones.as_slice());
    io_sequence.extend(&build_swd_transfer(PortType::DebugPort, TransferType::Read, 0));

    let mut last_error = DapError::SwdProtocol;
    let mut attempt: usize = 0;
    while attempt < 2
        invariant
            io_sequence.wf(),
            io_sequence.io@.len() == SWD_LINE_RESET_BITS + 48,
        decreases 2 - attempt,
    {
        let result_sequence = match probe.swd_io(
            io_sequence.direction_bits(),
            io_sequence.io_bits(),
        ) {
            Result::Ok(bits) => bits,
            Result::Err(e) => {
                return Result::Err(e);
            },
        };
        let frame = slice_subrange(
            result_sequence.as_slice(),
            SWD_LINE_RESET_BITS,
            SWD_LINE_RESET_BITS + 48,
        );
        match parse_swd_response(frame, TransferType::Read) {
            Result::Ok(_) => {
                proof {
                    let sampled = result_sequence@;
                    let tail = sampled.skip(SWD_LINE_RESET_BITS as int);
                    assert(frame@ =~= sampled.subrange(
                        SWD_LINE_RESET_BITS as int,
                        SWD_LINE_RESET_BITS as int + 48,
                    ));
                    assert(forall|q: int| 0 <= q < 48 ==> frame@[q] == tail[q]);
                    crate::swd::lemma_parse_depends_on_frame_only(
                        frame@,
                        tail,
                        TransferType::Read,
                    );
                    assert(spec_parse_response(tail, TransferType::Read) is Ok);
                }
                return Result::Ok(());
            },
            Result::Err(e) => {
                last_error = e;
            },
        }
        attempt = attempt + 1;
    }
    Result::Err(DebugProbeError::Dap(last_error))
}

/// Best-effort recovery after a WAIT: one burst writing ABORT with
/// ORUNERRCLR set, clearing the sticky overrun flag.
fn clear_overrun<P: RawSwdIo>(probe: &mut P) -> (r: Result<(), DebugProbeError>) {
    let mut transfers: Vec<SwdTransfer> = Vec::new();
    transfers.push(SwdTransfer::write(PortType::DebugPort, DP_ABORT_ADDRESS, ABORT_ORUNERRCLR));
    match perform_transfers(probe, &mut transfers) {
        Result::Ok(()) => Result::Ok(()),
        Result::Err(e) => Result::Err(e),
    }
}

/// Best-effort recovery after a FAULT: one burst reading CTRL/STAT, and,
/// if a sticky flag is set, one burst writing ABORT with the matching
/// clear bits.
fn handle_fault<P: RawSwdIo>(probe: &mut P) -> (r: Result<(), DebugProbeError>) {
    let mut transfers: Vec<SwdTransfer> = Vec::new();
    transfers.push(SwdTransfer::read(PortType::DebugPort, DP_CTRL_STAT_ADDRESS));
    match perform_transfers(probe, &mut transfers) {
        Result::Ok(()) => {},
        Result::Err(e) => {
            return Result::Err(e);
        },
    }
    let ctrl_read = transfers[0];
    if matches!(ctrl_read.status, TransferStatus::Success) {
        let ctrl = ctrl_read.value;
        let sticky_orun = ctrl & CTRL_STICKYORUN != 0;
        let sticky_err = ctrl & CTRL_STICKYERR != 0;
        if sticky_orun || sticky_err {
            let mut clear: u32 = 0;
            if sticky_orun {
                clear = clear | ABORT_ORUNERRCLR;
            }
            if sticky_err {
                clear = clear | ABORT_STKERRCLR;
            }
            let mut abort: Vec<SwdTransfer> = Vec::new();
            abort.push(SwdTransfer::write(PortType::DebugPort, DP_ABORT_ADDRESS, clear));
            match perform_transfers(probe, &mut abort) {
                Result::Ok(()) => {},
                Result::Err(e) => {
                    return Result::Err(e);
                },
            }
        }
    }
    Result::Ok(())
}

/// The batch a register read submits.
pub open spec fn single_read(port: PortType, address: u16) -> Seq<SwdTransfer> {
    seq![
        SwdTransfer {
            port,
            direction: TransferDirection::Read,
            address,
            value: 0,
            status: TransferStatus::Pending,
        },
    ]
}

/// The batch a register write submits.
pub open spec fn single_write(port: PortType, address: u16, value: u32) -> Seq<SwdTransfer> {
    seq![
        SwdTransfer {
            port,
            direction: TransferDirection::Write,
            address,
            value,
            status: TransferStatus::Pending,
        },
    ]
}

/// Read one DAP register, recovering from WAIT and protocol failures up
/// to the retry cap. A value is only ever delivered when a submission's
/// response stream parsed as a successful read of this very transfer.
pub fn read_register<P: RawSwdIo>(probe: &mut P, port: PortType, address: u16) -> (r: Result<
    u32,
    DebugProbeError,
>)
    ensures
        r matches Ok(value) ==> exists|bits: Seq<bool>|
            (#[trigger] spec_transfer_results(single_read(port, address), bits))[0] == (SwdTransfer {
                port,
                direction: TransferDirection::Read,
                address,
                value,
                status: TransferStatus::Success,
            }),
{
    let mut retry: usize = 0;
    while retry < DAP_RETRY_COUNT
        invariant
            retry <= DAP_RETRY_COUNT,
        decreases DAP_RETRY_COUNT - retry,
    {
        let mut transfers: Vec<SwdTransfer> = Vec::new();
        transfers.push(SwdTransfer::read(port, address));
        proof {
            assert(transfers@ =~= single_read(port, address));
        }
        match perform_transfers(probe, &mut transfers) {
            Result::Ok(()) => {},
            Result::Err(e) => {
                return Result::Err(e);
            },
        }
        let status = transfers[0].status;
        match retry_decision(status) {
            RetryAction::Deliver => {
                let value = transfers[0].value;
                proof {
                    let ts0 = single_read(port, address);
                    let bits = choose|bits: Seq<bool>|
                        {
                            &&& bits.len() == crate::sequencer::frames_wire_len(
                                crate::sequencer::all_frames(ts0),
                            )
                            &&& transfers@ == #[trigger] spec_transfer_results(ts0, bits)
                        };
                    assert(spec_transfer_results(ts0, bits)[0] == transfers@[0]);
                    assert(transfers@[0] == (SwdTransfer {
                        port,
                        direction: TransferDirection::Read,
                        address,
                        value,
                        status: TransferStatus::Success,
                    }));
                }
                return Result::Ok(value);
            },
            RetryAction::Resubmit => {},
            RetryAction::ClearOverrun => {
                match clear_overrun(probe) {
                    Result::Ok(()) => {},
                    Result::Err(e) => {
                        return Result::Err(e);
                    },
                }
            },
            RetryAction::HandleFault => {
                match handle_fault(probe) {
                    Result::Ok(()) => {},
                    Result::Err(e) => {
                        return Result::Err(e);
                    },
                }
                return Result::Err(DebugProbeError::Dap(DapError::FaultResponse));
            },
            RetryAction::LineReset => {
                match swd_line_reset(probe) {
                    Result::Ok(()) => {},
                    Result::Err(e) => {
                        return Result::Err(e);
                    },
                }
            },
        }
        retry = retry + 1;
    }
    Result::Err(DebugProbeError::Timeout)
}

/// Write one DAP register, recovering from WAIT and protocol failures up
/// to the retry cap. Success is only ever reported when a submission's
/// response stream parsed as a successful write of this very transfer.
pub fn write_register<P: RawSwdIo>(probe: &mut P, port: PortType, address: u16, value: u32) -> (r:
    Result<(), DebugProbeError>)
    ensures
        r is Ok ==> exists|bits: Seq<bool>|
            (#[trigger] spec_transfer_results(single_write(port, address, value), bits))[0] == (
            SwdTransfer {
                port,
                direction: TransferDirection::Write,
                address,
                value,
                status: TransferStatus::Success,
            }),
{
    let mut retry: usize = 0;
    while retry < DAP_RETRY_COUNT
        invariant
            retry <= DAP_RETRY_COUNT,
        decreases DAP_RETRY_COUNT - retry,
    {
        let mut transfers: Vec<SwdTransfer> = Vec::new();
        transfers.push(SwdTransfer::write(port, address, value));
        proof {
            assert(transfers@ =~= single_write(port, address, value));
        }
        match perform_transfers(probe, &mut transfers) {
            Result::Ok(()) => {},
            Result::Err(e) => {
                return Result::Err(e);
            },
        }
        let status = transfers[0].status;
        match retry_decision(status) {
            RetryAction::Deliver => {
                proof {
                    let ts0 = single_write(port, address, value);
                    let bits = choose|bits: Seq<bool>|
                        {
                            &&& bits.len() == crate::sequencer::frames_wire_len(
                                crate::sequencer::all_frames(ts0),
                            )
                            &&& transfers@ == #[trigger] spec_transfer_results(ts0, bits)
                        };
                    assert(spec_transfer_results(ts0, bits)[0] == transfers@[0]);
                    assert(transfers@[0] == (SwdTransfer {
                        port,
                        direction: TransferDirection::Write,
                        address,
                        value,
                        status: TransferStatus::Success,
                    }));
                }
                return Result::Ok(());
            },
            RetryAction::Resubmit => {},
            RetryAction::ClearOverrun => {
                match clear_overrun(probe) {
                    Result::Ok(()) => {},
                    Result::Err(e) => {
                        return Result::Err(e);
                    },
                }
            },
            RetryAction::HandleFault => {
                match handle_fault(probe) {
                    Result::Ok(()) => {},
                    Result::Err(e) => {
                        return Result::Err(e);
                    },
                }
                return Result::Err(DebugProbeError::Dap(DapError::FaultResponse));
            },
            RetryAction::LineReset => {
                match swd_line_reset(probe) {
                    Result::Ok(()) => {},
                    Result::Err(e) => {
                        return Result::Err(e);
                    },
                }
            },
        }
        retry = retry + 1;
    }
    Result::Err(DebugProbeError::Timeout)
}

} // verus!
