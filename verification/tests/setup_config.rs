use jlink_probe::jtag::JtagState;
use jlink_probe::probe::{RawJtagIo, RawSwdIo};
use jlink_probe::setup::{
    attach_jtag, attach_swd, choose_attach_protocol, compute_speed_config, contains_protocol,
    jtag_reset_sequences, jtag_to_swd_switch_sequence, matches_selector,
    select_interface_decision, validate_speed_request, wire_protocol_of, InterfaceKind,
};
use jlink_probe::types::{DebugProbeError, WireProtocol, SWO_BUFFER_SIZE};

struct ScriptedTransport {
    responses: Vec<Vec<bool>>,
    calls: usize,
}

impl ScriptedTransport {
    fn new(responses: Vec<Vec<bool>>) -> Self {
        Self { responses, calls: 0 }
    }
}

impl RawSwdIo for ScriptedTransport {
    fn swd_io(&mut self, dir: &Vec<bool>, swdio: &Vec<bool>) -> Result<Vec<bool>, DebugProbeError> {
        assert_eq!(dir.len(), swdio.len());
        let response = self.responses[self.calls].clone();
        assert_eq!(response.len(), dir.len());
        self.calls += 1;
        Ok(response)
    }
}

impl RawJtagIo for ScriptedTransport {
    fn jtag_io(&mut self, tms: &Vec<bool>, tdi: &Vec<bool>) -> Result<Vec<bool>, DebugProbeError> {
        assert_eq!(tms.len(), tdi.len());
        let response = self.responses[self.calls].clone();
        assert_eq!(response.len(), tms.len());
        self.calls += 1;
        Ok(response)
    }
}

#[test]
fn interface_kinds_map_to_protocols() {
    assert_eq!(wire_protocol_of(InterfaceKind::Jtag), Some(WireProtocol::Jtag));
    assert_eq!(wire_protocol_of(InterfaceKind::Swd), Some(WireProtocol::Swd));
    assert_eq!(wire_protocol_of(InterfaceKind::Other), None);
}

#[test]
fn interface_selection_with_capability() {
    let available = vec![WireProtocol::Jtag, WireProtocol::Swd];
    assert_eq!(
        select_interface_decision(true, &available, Some(WireProtocol::Swd), None),
        Ok(WireProtocol::Swd)
    );
    let jtag_only = vec![WireProtocol::Jtag];
    assert_eq!(
        select_interface_decision(true, &jtag_only, Some(WireProtocol::Swd), None),
        Err(DebugProbeError::UnsupportedProtocol(WireProtocol::Swd))
    );
    assert_eq!(
        select_interface_decision(true, &jtag_only, None, Some(WireProtocol::Jtag)),
        Ok(WireProtocol::Jtag)
    );
    // A probe sitting on an interface this driver does not speak.
    assert_eq!(
        select_interface_decision(true, &jtag_only, None, None),
        Err(DebugProbeError::ProbeSpecific)
    );
}

#[test]
fn interface_selection_without_capability_assumes_jtag() {
    let available = vec![];
    assert_eq!(
        select_interface_decision(false, &available, Some(WireProtocol::Jtag), None),
        Ok(WireProtocol::Jtag)
    );
    assert_eq!(
        select_interface_decision(false, &available, Some(WireProtocol::Swd), None),
        Err(DebugProbeError::UnsupportedProtocol(WireProtocol::Swd))
    );
    assert_eq!(select_interface_decision(false, &available, None, None), Ok(WireProtocol::Jtag));
}

#[test]
fn attach_prefers_swd() {
    let both = vec![WireProtocol::Jtag, WireProtocol::Swd];
    assert_eq!(choose_attach_protocol(None, &both), WireProtocol::Swd);
    assert_eq!(choose_attach_protocol(Some(WireProtocol::Jtag), &both), WireProtocol::Jtag);
    let jtag_only = vec![WireProtocol::Jtag];
    assert_eq!(choose_attach_protocol(None, &jtag_only), WireProtocol::Jtag);
}

#[test]
fn protocol_containment() {
    let list = vec![WireProtocol::Jtag];
    assert!(contains_protocol(&list, WireProtocol::Jtag));
    assert!(!contains_protocol(&list, WireProtocol::Swd));
}

#[test]
fn speed_request_bounds() {
    assert_eq!(
        validate_speed_request(0),
        Err(DebugProbeError::UnsupportedSpeed(0))
    );
    assert_eq!(
        validate_speed_request(0xffff),
        Err(DebugProbeError::UnsupportedSpeed(0xffff))
    );
    assert_eq!(validate_speed_request(4000), Ok(()));
}

#[test]
fn speed_divider_computation() {
    // 12 MHz base, divider 12 reaches exactly 1000 kHz.
    assert_eq!(compute_speed_config(12_000_000, 1, 1000), Ok(1000));
    // A 7000 kHz request forces divider 2: 6000 kHz is reached.
    assert_eq!(compute_speed_config(12_000_000, 1, 7000), Ok(6000));
    // The minimum divider caps the reachable speed.
    assert_eq!(compute_speed_config(12_000_000, 4, 7000), Ok(3000));
    // Out-of-range requests are refused before any computation.
    assert_eq!(
        compute_speed_config(12_000_000, 1, 0),
        Err(DebugProbeError::UnsupportedSpeed(0))
    );
}

#[test]
fn jtag_to_swd_preamble_bits() {
    let sequence = jtag_to_swd_switch_sequence();
    let io = sequence.io_bits();
    let dir = sequence.direction_bits();
    assert_eq!(io.len(), 80);
    assert!(dir.iter().all(|&b| b));
    assert!(io[..64].iter().all(|&b| b));
    let magic = [
        false, true, true, true, true, false, false, true, true, true, true, false, false, true,
        true, true,
    ];
    assert_eq!(&io[64..], &magic);
}

#[test]
fn jtag_reset_is_five_highs_and_one_low() {
    let (tms, tdi) = jtag_reset_sequences();
    assert_eq!(tms, vec![true, true, true, true, true, false]);
    assert_eq!(tdi, vec![false; 6]);
}

#[test]
fn selector_matching() {
    let serial = b"12345".to_vec();
    assert!(matches_selector(0x1366, 0x0101, &serial, 0x1366, 0x0101, None));
    assert!(matches_selector(0x1366, 0x0101, &serial, 0x1366, 0x0101, Some(&serial)));
    let other = b"99999".to_vec();
    assert!(!matches_selector(0x1366, 0x0101, &serial, 0x1366, 0x0101, Some(&other)));
    assert!(!matches_selector(0x1366, 0x0102, &serial, 0x1366, 0x0101, None));
}

#[test]
fn jtag_attach_reads_idcode() {
    let idcode = 0x4BA0_0477u32;
    let reset_burst = vec![false; 6];
    let mut dr_burst = vec![false; 37];
    for i in 0..32 {
        dr_burst[3 + i] = (idcode >> i) & 1 == 1;
    }
    let mut probe = ScriptedTransport::new(vec![reset_burst, dr_burst]);
    let state = JtagState::new();

    let result = attach_jtag(&mut probe, &state);

    assert_eq!(result, Ok(idcode));
    assert_eq!(probe.calls, 2);
}

#[test]
fn swd_attach_switches_and_line_resets() {
    // The 80-bit switch preamble's response is ignored; the line reset's
    // DPIDR read answers OK.
    let switch_burst = vec![false; 80];
    let mut reset_burst = vec![false; 98];
    reset_burst[50 + 10] = true;
    let mut probe = ScriptedTransport::new(vec![switch_burst, reset_burst]);

    assert_eq!(attach_swd(&mut probe), Ok(()));
    assert_eq!(probe.calls, 2);
}

#[test]
fn swd_attach_fails_without_dpidr_ack() {
    // Both line reset attempts see a dead line: the attach fails.
    let switch_burst = vec![false; 80];
    let dead_burst = vec![false; 98];
    let mut probe =
        ScriptedTransport::new(vec![switch_burst, dead_burst.clone(), dead_burst]);

    assert_eq!(
        attach_swd(&mut probe),
        Err(DebugProbeError::Dap(jlink_probe::types::DapError::SwdProtocol))
    );
    assert_eq!(probe.calls, 3);
}

#[test]
fn swo_buffer_is_128_bytes() {
    assert_eq!(SWO_BUFFER_SIZE, 128);
}
