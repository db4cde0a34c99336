use jlink_probe::jtag::{
    build_dr_read_sequences, build_dr_write_sequences, build_ir_sequences, parse_dr_response,
    read_register, write_ir, write_register, JtagState,
};
use jlink_probe::probe::RawJtagIo;
use jlink_probe::types::DebugProbeError;

struct MockJtag {
    calls: usize,
    tms_log: Vec<Vec<bool>>,
    tdi_log: Vec<Vec<bool>>,
    scripted: Vec<Vec<bool>>,
}

impl MockJtag {
    fn new() -> Self {
        Self { calls: 0, tms_log: Vec::new(), tdi_log: Vec::new(), scripted: Vec::new() }
    }

    fn with_scripted(scripted: Vec<Vec<bool>>) -> Self {
        Self { calls: 0, tms_log: Vec::new(), tdi_log: Vec::new(), scripted }
    }
}

impl RawJtagIo for MockJtag {
    fn jtag_io(&mut self, tms: &Vec<bool>, tdi: &Vec<bool>) -> Result<Vec<bool>, DebugProbeError> {
        assert_eq!(tms.len(), tdi.len());
        let response = if self.calls < self.scripted.len() {
            let r = self.scripted[self.calls].clone();
            assert_eq!(r.len(), tms.len());
            r
        } else {
            vec![false; tms.len()]
        };
        self.tms_log.push(tms.clone());
        self.tdi_log.push(tdi.clone());
        self.calls += 1;
        Ok(response)
    }
}

#[test]
fn dr_read_sequences_shape() {
    let (tms, tdi) = build_dr_read_sequences(32, 0);
    assert_eq!(tms.len(), 37);
    assert_eq!(tdi.len(), 37);
    assert_eq!(&tms[..3], &[true, false, false]);
    assert!(tms[3..34].iter().all(|&b| !b));
    assert_eq!(&tms[34..37], &[true, true, false]);
    assert!(tdi.iter().all(|&b| !b));
}

#[test]
fn dr_read_sequences_include_idle_cycles() {
    let (tms, tdi) = build_dr_read_sequences(8, 2);
    assert_eq!(tms.len(), 15);
    assert_eq!(tdi.len(), 15);
    assert!(tms[13..].iter().all(|&b| !b));
}

#[test]
fn dr_write_sequences_carry_data() {
    let (tms, tdi) = build_dr_write_sequences(&[0x0F, 0xF0], 16, 0);
    assert_eq!(tms.len(), 21);
    assert_eq!(tdi.len(), 21);
    // Three zeros entering, then 0x0F then 0xF0, each LSB-first.
    assert!(tdi[..3].iter().all(|&b| !b));
    assert_eq!(&tdi[3..11], &[true, true, true, true, false, false, false, false]);
    assert_eq!(&tdi[11..19], &[false, false, false, false, true, true, true, true]);
    assert!(tdi[19..].iter().all(|&b| !b));
}

#[test]
fn ir_sequences_shape() {
    let (tms, tdi) = build_ir_sequences(&[0x0A], 5);
    assert_eq!(tms.len(), 11);
    assert_eq!(tdi.len(), 11);
    assert_eq!(&tms[..4], &[true, true, false, false]);
    assert!(tms[4..8].iter().all(|&b| !b));
    assert_eq!(&tms[8..11], &[true, true, false]);
    assert!(tdi[..4].iter().all(|&b| !b));
    assert_eq!(&tdi[4..9], &[false, true, false, true, false]);
    assert!(tdi[9..].iter().all(|&b| !b));
}

#[test]
fn parse_dr_packs_little_endian() {
    let value = 0x1234_5678u32;
    let mut response = vec![false; 3 + 32];
    for i in 0..32 {
        response[3 + i] = (value >> i) & 1 == 1;
    }
    let bytes = parse_dr_response(&response, 32);
    assert_eq!(bytes, vec![0x78, 0x56, 0x34, 0x12]);
}

#[test]
fn parse_dr_handles_partial_bytes() {
    let mut response = vec![false; 3 + 12];
    // 12 bits: 0xA5 then 0b0110.
    for (i, bit) in [true, false, true, false, false, true, false, true].iter().enumerate() {
        response[3 + i] = *bit;
    }
    response[3 + 9] = true;
    response[3 + 10] = true;
    let bytes = parse_dr_response(&response, 12);
    assert_eq!(bytes, vec![0xA5, 0x06]);
}

#[test]
fn ir_skip_on_back_to_back_accesses() {
    let mut probe = MockJtag::new();
    let mut state = JtagState::new();

    let first = read_register(&mut probe, &mut state, 0x5, 8);
    assert!(first.is_ok());
    // IR write (11 cycles) plus DR read (13 cycles).
    assert_eq!(probe.calls, 2);
    assert_eq!(probe.tms_log[0].len(), 11);
    assert_eq!(probe.tms_log[1].len(), 13);

    let second = read_register(&mut probe, &mut state, 0x5, 8);
    assert!(second.is_ok());
    // Same address: no second IR write.
    assert_eq!(probe.calls, 3);
    assert_eq!(probe.tms_log[2].len(), 13);
}

#[test]
fn read_register_rejects_wide_addresses() {
    let mut probe = MockJtag::new();
    let mut state = JtagState::new();
    let result = read_register(&mut probe, &mut state, 0x20, 8);
    assert!(matches!(result, Err(DebugProbeError::NotImplemented(_))));
    assert_eq!(probe.calls, 0);
}

#[test]
fn write_ir_validates_inputs() {
    let mut probe = MockJtag::new();
    let mut state = JtagState::new();
    assert!(write_ir(&mut probe, &mut state, &[0x1], 0).is_err());
    assert!(write_ir(&mut probe, &mut state, &[], 4).is_err());
    assert!(matches!(
        write_ir(&mut probe, &mut state, &[0x1, 0x2], 9),
        Err(DebugProbeError::NotImplemented(_))
    ));
    assert_eq!(probe.calls, 0);
}

#[test]
fn write_register_returns_prior_content() {
    // The DR write shifts out the prior register value on TDO: scripted
    // response carries 0xC3 in the 8 data bits after the 3 entry bits.
    let mut state = JtagState::new();
    let ir_burst = vec![false; 11];
    let mut dr_burst = vec![false; 13];
    for i in 0..8 {
        dr_burst[3 + i] = (0xC3u8 >> i) & 1 == 1;
    }
    let mut probe = MockJtag::with_scripted(vec![ir_burst, dr_burst]);

    let result = write_register(&mut probe, &mut state, 0x11, &[0x55], 8);
    assert_eq!(result, Ok(vec![0xC3]));
    assert_eq!(probe.calls, 2);
    // The written value rides on TDI after the three entry bits.
    assert_eq!(&probe.tdi_log[1][3..11], &[true, false, true, false, true, false, true, false]);
}

#[test]
fn idle_cycles_lengthen_the_burst() {
    let mut probe = MockJtag::new();
    let mut state = JtagState::new();
    state.set_idle_cycles(4);
    let result = read_register(&mut probe, &mut state, 0x3, 8);
    assert!(result.is_ok());
    // IR write is unaffected; the DR access gains four trailing cycles.
    assert_eq!(probe.tms_log[0].len(), 11);
    assert_eq!(probe.tms_log[1].len(), 17);
}
