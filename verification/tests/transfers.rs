use jlink_probe::probe::RawSwdIo;
use jlink_probe::sequencer::perform_transfers;
use jlink_probe::types::{
    DapError, DebugProbeError, PortType, SwdTransfer, TransferDirection, TransferStatus,
};

struct MockJaylink {
    direction_input: Option<Vec<bool>>,
    io_input: Option<Vec<bool>>,
    response: Vec<bool>,
}

impl MockJaylink {
    fn with_response(response: Vec<bool>) -> Self {
        Self { direction_input: None, io_input: None, response }
    }
}

impl RawSwdIo for MockJaylink {
    fn swd_io(&mut self, dir: &Vec<bool>, swdio: &Vec<bool>) -> Result<Vec<bool>, DebugProbeError> {
        self.direction_input = Some(dir.clone());
        self.io_input = Some(swdio.clone());

        assert_eq!(
            self.direction_input.as_ref().unwrap().len(),
            self.io_input.as_ref().unwrap().len()
        );

        assert_eq!(self.response.len(), self.io_input.as_ref().map(|v| v.len()).unwrap());

        Ok(self.response.clone())
    }
}

/// Mark the ACK of the frame starting at `offset` as OK.
fn ok_ack(response: &mut Vec<bool>, offset: usize) {
    response[offset + 10] = true;
}

/// Store a read payload (LSB first) and its parity bit into the frame
/// starting at `offset`.
fn set_word(response: &mut Vec<bool>, offset: usize, value: u32) {
    for i in 0..32 {
        response[offset + 13 + i] = (value >> i) & 1 == 1;
    }
    response[offset + 45] = value.count_ones() % 2 == 1;
}

#[test]
fn single_dp_register_read() {
    let mut transfers = vec![SwdTransfer {
        port: PortType::DebugPort,
        address: 0,
        direction: TransferDirection::Read,
        value: 0,
        status: TransferStatus::Pending,
    }];

    let read_length = 2 + 8 + 1 + 3 + 32 + 2;

    let mut response = vec![false; read_length];
    response[10] = true;

    let mut mock = MockJaylink::with_response(response);

    perform_transfers(&mut mock, &mut transfers).expect("Failed to perform transfer");

    let transfer_result = &transfers[0];

    assert_eq!(transfer_result.status, TransferStatus::Success);
    assert_eq!(transfer_result.value, 0);
}

#[test]
fn single_ap_register_read() {
    let register_value = 0x11_22_33_44u32;

    let mut transfers = vec![SwdTransfer {
        port: PortType::AccessPort(0),
        address: 0,
        direction: TransferDirection::Read,
        value: 0,
        status: TransferStatus::Pending,
    }];

    let read_length = 2 + 8 + 1 + 3 + 32 + 2;

    // The AP read is followed by a trailing RDBUFF read which carries the
    // pipelined value.
    let mut response = vec![false; 2 * read_length];
    response[10] = true;
    response[read_length + 10] = true;
    set_word(&mut response, read_length, register_value);

    let mut mock = MockJaylink::with_response(response);

    perform_transfers(&mut mock, &mut transfers).expect("Failed to perform transfer");

    let transfer_result = &transfers[0];

    assert_eq!(transfer_result.status, TransferStatus::Success);
    assert_eq!(transfer_result.value, register_value);
    assert_eq!(mock.io_input.as_ref().unwrap().len(), 2 * read_length);
}

#[test]
fn single_dp_register_write() {
    let mut transfers = vec![SwdTransfer {
        port: PortType::DebugPort,
        address: 0,
        direction: TransferDirection::Write,
        value: 0x1234_5678,
        status: TransferStatus::Pending,
    }];

    // The write frame is followed by 16 idle cycles and a trailing RDBUFF
    // read reporting the write's status: 48 + 16 + 48 bits on the wire.
    let write_length = 48 + 16;
    let read_length = 48;

    let mut response = vec![false; write_length + read_length];
    response[10] = true;
    response[write_length + 10] = true;

    let mut mock = MockJaylink::with_response(response);

    perform_transfers(&mut mock, &mut transfers).expect("Failed to perform transfer");

    let transfer_result = &transfers[0];

    assert_eq!(transfer_result.status, TransferStatus::Success);
}

#[test]
fn single_ap_register_write() {
    let mut transfers = vec![SwdTransfer {
        port: PortType::AccessPort(0),
        address: 0,
        direction: TransferDirection::Write,
        value: 0x1234_5678,
        status: TransferStatus::Pending,
    }];

    let write_length = 48 + 16;
    let read_length = 48;

    let mut response = vec![false; write_length + read_length];
    response[10] = true;
    response[write_length + 10] = true;

    let mut mock = MockJaylink::with_response(response);

    perform_transfers(&mut mock, &mut transfers).expect("Failed to perform transfer");

    let transfer_result = &transfers[0];

    assert_eq!(transfer_result.status, TransferStatus::Success);
    assert_eq!(mock.io_input.as_ref().unwrap().len(), write_length + read_length);
}

#[test]
fn batch_pipelining_round_trip() {
    // AP write, AP read, DP read of DPIDR: the AP read's value arrives in
    // the RDBUFF read inserted before the DPIDR access, the write's status
    // in the AP read's ACK, and no trailing drain is needed.
    let mut transfers = vec![
        SwdTransfer {
            port: PortType::AccessPort(0),
            address: 0,
            direction: TransferDirection::Write,
            value: 0xDEAD_BEEF,
            status: TransferStatus::Pending,
        },
        SwdTransfer {
            port: PortType::AccessPort(0),
            address: 0,
            direction: TransferDirection::Read,
            value: 0,
            status: TransferStatus::Pending,
        },
        SwdTransfer {
            port: PortType::DebugPort,
            address: 0,
            direction: TransferDirection::Read,
            value: 0,
            status: TransferStatus::Pending,
        },
    ];

    // Frames: AP write (+idles), AP read, inserted RDBUFF read, DPIDR read.
    let offsets = [0usize, 64, 112, 160];
    let total = 208;

    let mut response = vec![false; total];
    for offset in offsets {
        ok_ack(&mut response, offset);
    }
    set_word(&mut response, offsets[2], 0x0000_CAFE);
    set_word(&mut response, offsets[3], 0x5);

    let mut mock = MockJaylink::with_response(response);

    perform_transfers(&mut mock, &mut transfers).expect("Failed to perform transfer");

    assert_eq!(mock.io_input.as_ref().unwrap().len(), total);
    assert_eq!(transfers[0].status, TransferStatus::Success);
    assert_eq!(transfers[1].status, TransferStatus::Success);
    assert_eq!(transfers[1].value, 0x0000_CAFE);
    assert_eq!(transfers[2].status, TransferStatus::Success);
    assert_eq!(transfers[2].value, 0x5);
}

#[test]
fn stallable_access_after_posted_write_inserts_drain() {
    // An ABORT write right after a posted AP write gets an RDBUFF read in
    // front of it, which the DP stalls until the write buffer drains; the
    // final write leaves a status pending, so a trailing RDBUFF follows.
    let mut transfers = vec![
        SwdTransfer {
            port: PortType::AccessPort(0),
            address: 0,
            direction: TransferDirection::Write,
            value: 0x1,
            status: TransferStatus::Pending,
        },
        SwdTransfer {
            port: PortType::DebugPort,
            address: 0,
            direction: TransferDirection::Write,
            value: 0x1F,
            status: TransferStatus::Pending,
        },
    ];

    // Frames: AP write (+idles), RDBUFF read, ABORT write (+idles),
    // trailing RDBUFF read.
    let offsets = [0usize, 64, 112, 176];
    let total = 224;

    let mut response = vec![false; total];
    for offset in offsets {
        ok_ack(&mut response, offset);
    }

    let mut mock = MockJaylink::with_response(response);

    perform_transfers(&mut mock, &mut transfers).expect("Failed to perform transfer");

    assert_eq!(mock.io_input.as_ref().unwrap().len(), total);
    assert_eq!(transfers[0].status, TransferStatus::Success);
    assert_eq!(transfers[1].status, TransferStatus::Success);
}

#[test]
fn largest_batch_fits_one_burst() {
    // A full-size batch of DP reads needs no auxiliary frames and stays
    // well under the probe's 16-bit cycle count.
    let batch_size = 340;
    let mut transfers = Vec::new();
    for _ in 0..batch_size {
        transfers.push(SwdTransfer {
            port: PortType::DebugPort,
            address: 4,
            direction: TransferDirection::Read,
            value: 0,
            status: TransferStatus::Pending,
        });
    }

    let total = 48 * batch_size;
    assert!(total < 65535);
    let mut response = vec![false; total];
    for k in 0..batch_size {
        ok_ack(&mut response, 48 * k);
    }

    let mut mock = MockJaylink::with_response(response);

    perform_transfers(&mut mock, &mut transfers).expect("Failed to perform transfer");

    assert_eq!(mock.io_input.as_ref().unwrap().len(), total);
    assert!(transfers.iter().all(|t| t.status == TransferStatus::Success));
}

struct FailingProbe;

impl RawSwdIo for FailingProbe {
    fn swd_io(
        &mut self,
        _dir: &Vec<bool>,
        _swdio: &Vec<bool>,
    ) -> Result<Vec<bool>, DebugProbeError> {
        Err(DebugProbeError::ProbeSpecific)
    }
}

#[test]
fn transport_error_leaves_batch_untouched() {
    let mut transfers = vec![SwdTransfer {
        port: PortType::DebugPort,
        address: 0,
        direction: TransferDirection::Read,
        value: 0,
        status: TransferStatus::Pending,
    }];

    let mut probe = FailingProbe;
    let result = perform_transfers(&mut probe, &mut transfers);

    assert_eq!(result, Err(DebugProbeError::ProbeSpecific));
    assert_eq!(transfers[0].status, TransferStatus::Pending);
}

#[test]
fn failed_ack_reported_per_transfer() {
    // A WAIT ACK on a standalone DP read is reported as a failure of that
    // transfer.
    let mut transfers = vec![SwdTransfer {
        port: PortType::DebugPort,
        address: 4,
        direction: TransferDirection::Read,
        value: 0,
        status: TransferStatus::Pending,
    }];

    let mut response = vec![false; 48];
    response[11] = true;

    let mut mock = MockJaylink::with_response(response);

    perform_transfers(&mut mock, &mut transfers).expect("Failed to perform transfer");

    assert_eq!(transfers[0].status, TransferStatus::Failed(DapError::WaitResponse));
}

struct ScriptedProbe {
    responses: Vec<Vec<bool>>,
    recorded_io: Vec<Vec<bool>>,
    calls: usize,
}

impl ScriptedProbe {
    fn new(responses: Vec<Vec<bool>>) -> Self {
        Self { responses, recorded_io: Vec::new(), calls: 0 }
    }
}

impl RawSwdIo for ScriptedProbe {
    fn swd_io(&mut self, dir: &Vec<bool>, swdio: &Vec<bool>) -> Result<Vec<bool>, DebugProbeError> {
        assert_eq!(dir.len(), swdio.len());
        assert!(self.calls < self.responses.len(), "probe saw more bursts than scripted");
        let response = self.responses[self.calls].clone();
        assert_eq!(response.len(), dir.len());
        self.recorded_io.push(swdio.clone());
        self.calls += 1;
        Ok(response)
    }
}

#[test]
fn wait_then_ok_retry() {
    // First burst answers WAIT; the loop writes ABORT with ORUNERRCLR and
    // the second submission goes through: exactly three wire bursts.
    let mut wait_burst = vec![false; 48];
    wait_burst[11] = true;

    let mut abort_burst = vec![false; 112];
    abort_burst[10] = true;
    abort_burst[64 + 10] = true;

    let mut ok_burst = vec![false; 48];
    ok_burst[10] = true;

    let mut probe = ScriptedProbe::new(vec![wait_burst, abort_burst, ok_burst]);

    let result = jlink_probe::dap::read_register(&mut probe, PortType::DebugPort, 0);

    assert_eq!(result, Ok(0));
    assert_eq!(probe.calls, 3);
    // The recovery burst carries the ORUNERRCLR bit (data bit 4 of the
    // write frame, wire position 15 + 4).
    assert!(probe.recorded_io[1][19]);
}

#[test]
fn fault_with_sticky_overrun() {
    // A FAULT answer makes the loop read CTRL/STAT; STICKYORUN is set, so
    // it writes ABORT with ORUNERRCLR and surfaces the fault.
    let mut fault_burst = vec![false; 48];
    fault_burst[12] = true;

    let mut ctrl_burst = vec![false; 48];
    ctrl_burst[10] = true;
    // CTRL/STAT value 0x2: STICKYORUN; odd popcount, so the parity bit is
    // set too.
    ctrl_burst[13 + 1] = true;
    ctrl_burst[45] = true;

    let mut abort_burst = vec![false; 112];
    abort_burst[10] = true;
    abort_burst[64 + 10] = true;

    let mut probe = ScriptedProbe::new(vec![fault_burst, ctrl_burst, abort_burst]);

    let result = jlink_probe::dap::read_register(&mut probe, PortType::DebugPort, 8);

    assert_eq!(result, Err(DebugProbeError::Dap(DapError::FaultResponse)));
    assert_eq!(probe.calls, 3);
    assert!(probe.recorded_io[2][19]);
}

#[test]
fn retry_cap_times_out() {
    // Every submission answers WAIT: after 20 submissions (each followed
    // by its recovery burst) the operation times out.
    let mut responses = Vec::new();
    for _ in 0..20 {
        let mut wait_burst = vec![false; 48];
        wait_burst[11] = true;
        responses.push(wait_burst);

        let mut abort_burst = vec![false; 112];
        abort_burst[10] = true;
        abort_burst[64 + 10] = true;
        responses.push(abort_burst);
    }

    let mut probe = ScriptedProbe::new(responses);

    let result = jlink_probe::dap::read_register(&mut probe, PortType::DebugPort, 0);

    assert_eq!(result, Err(DebugProbeError::Timeout));
    assert_eq!(probe.calls, 40);
}

#[test]
fn write_register_round_trip() {
    let mut write_burst = vec![false; 112];
    write_burst[10] = true;
    write_burst[64 + 10] = true;

    let mut probe = ScriptedProbe::new(vec![write_burst]);

    let result =
        jlink_probe::dap::write_register(&mut probe, PortType::DebugPort, 8, 0x1234_5678);

    assert_eq!(result, Ok(()));
    assert_eq!(probe.calls, 1);
    // Wire data bits 15..47 hold 0x12345678 LSB-first: bit 0 is clear,
    // bits 3 and 4 are set.
    assert!(!probe.recorded_io[0][15]);
    assert!(probe.recorded_io[0][15 + 3]);
    assert!(probe.recorded_io[0][15 + 4]);
}

#[test]
fn line_reset_failure_surfaces_protocol_error() {
    // Every answer is a protocol violation (ACK all-zero): the loop line
    // resets and retries; the line reset itself never sees an OK DPIDR
    // read, so its failure surfaces.
    let bad_burst = vec![false; 48];
    let reset_burst = vec![false; 98];

    let mut probe = ScriptedProbe::new(vec![bad_burst, reset_burst.clone(), reset_burst]);

    let result = jlink_probe::dap::read_register(&mut probe, PortType::DebugPort, 0);

    assert_eq!(result, Err(DebugProbeError::Dap(DapError::SwdProtocol)));
    assert_eq!(probe.calls, 3);
}
