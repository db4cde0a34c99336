//! One-time probe setup decisions: protocol selection, the attach
//! preambles, speed configuration and probe selection.

use vstd::prelude::*;
use crate::bits::{le_word_of, repeat_bit, repeated_bits, word_from_le_bytes};
use crate::io_sequence::IoSequence;
use crate::jtag::{dr_result_bytes, read_dr, JtagState};
use crate::probe::{RawJtagIo, RawSwdIo};
use crate::swd::spec_parse_response;
use crate::types::{DebugProbeError, TransferType, WireProtocol, SWD_LINE_RESET_BITS};

verus! {

/// A probe-side wire interface as this driver classifies it: the two it
/// can drive, and everything else.
#[derive(Debug, PartialEq, Eq, Structural, Clone, Copy)]
pub enum InterfaceKind {
    Jtag,
    Swd,
    Other,
}

pub open spec fn spec_wire_protocol_of(kind: InterfaceKind) -> Option<WireProtocol> {
    match kind {
        InterfaceKind::Jtag => Some(WireProtocol::Jtag),
        InterfaceKind::Swd => Some(WireProtocol::Swd),
        InterfaceKind::Other => None,
    }
}

/// The wire protocol a probe interface carries, if the driver knows it.
pub fn wire_protocol_of(kind: InterfaceKind) -> (r: Option<WireProtocol>)
    ensures
        r == spec_wire_protocol_of(kind),
{
    match kind {
        InterfaceKind::Jtag => Some(WireProtocol::Jtag),
        InterfaceKind::Swd => Some(WireProtocol::Swd),
        InterfaceKind::Other => None,
    }
}

/// Whether `protocols` lists `p`.
pub fn contains_protocol(protocols: &Vec<WireProtocol>, p: WireProtocol) -> (r: bool)
    ensures
        r == protocols@.contains(p),
{
    let mut i: usize = 0;
    while i < protocols.len()
        invariant
            i <= protocols@.len(),
            forall|j: int| 0 <= j < i ==> protocols@[j] != p,
        decreases protocols@.len() - i,
    {
        if protocols[i] == p {
            return true;
        }
        i = i + 1;
    }
    false
}

/// Which protocol a probe ends up speaking, given what it can switch to.
/// With the interface-selection capability, a requested protocol must be
/// among the available ones, and no request keeps the current interface
/// (a probe sitting on an interface this driver does not speak is
/// refused); without the capability the probe is taken to be JTAG-only.
pub fn select_interface_decision(
    has_select_if: bool,
    available: &Vec<WireProtocol>,
    requested: Option<WireProtocol>,
    current: Option<WireProtocol>,
) -> (r: Result<WireProtocol, DebugProbeError>)
    ensures
        (has_select_if && requested is Some && available@.contains(requested->0)) ==> r
            == Result::<WireProtocol, DebugProbeError>::Ok(requested->0),
        (has_select_if && requested is Some && !available@.contains(requested->0)) ==> r
            == Result::<WireProtocol, DebugProbeError>::Err(
            DebugProbeError::UnsupportedProtocol(requested->0),
        ),
        (has_select_if && requested is None && current is Some) ==> r == Result::<
            WireProtocol,
            DebugProbeError,
        >::Ok(current->0),
        (has_select_if && requested is None && current is None) ==> r == Result::<
            WireProtocol,
            DebugProbeError,
        >::Err(DebugProbeError::ProbeSpecific),
        (!has_select_if && requested == Some(WireProtocol::Jtag)) ==> r == Result::<
            WireProtocol,
            DebugProbeError,
        >::Ok(WireProtocol::Jtag),
        (!has_select_if && requested == Some(WireProtocol::Swd)) ==> r == Result::<
            WireProtocol,
            DebugProbeError,
        >::Err(DebugProbeError::UnsupportedProtocol(WireProtocol::Swd)),
        (!has_select_if && requested is None) ==> r == Result::<
            WireProtocol,
            DebugProbeError,
        >::Ok(WireProtocol::Jtag),
{
    if has_select_if {
        match requested {
            Some(protocol) => {
                if contains_protocol(available, protocol) {
                    Result::Ok(protocol)
                } else {
                    Result::Err(DebugProbeError::UnsupportedProtocol(protocol))
                }
            },
            None => {
                match current {
                    Some(protocol) => Result::Ok(protocol),
                    None => Result::Err(DebugProbeError::ProbeSpecific),
                }
            },
        }
    } else {
        match requested {
            Some(WireProtocol::Jtag) => Result::Ok(WireProtocol::Jtag),
            Some(p) => Result::Err(DebugProbeError::UnsupportedProtocol(p)),
            None => Result::Ok(WireProtocol::Jtag),
        }
    }
}

/// The protocol to attach with: what was configured, else SWD when the
/// probe supports it, else the first protocol the probe reported.
pub fn choose_attach_protocol(
    configured: Option<WireProtocol>,
    supported: &Vec<WireProtocol>,
) -> (r: WireProtocol)
    requires
        supported@.len() >= 1,
    ensures
        configured matches Some(p) ==> r == p,
        (configured is None && supported@.contains(WireProtocol::Swd)) ==> r == WireProtocol::Swd,
        (configured is None && !supported@.contains(WireProtocol::Swd)) ==> r == supported@[0],
{
    match configured {
        Some(protocol) => protocol,
        None => {
            if contains_protocol(supported, WireProtocol::Swd) {
                WireProtocol::Swd
            } else {
                supported[0]
            }
        },
    }
}

/// The 16-bit JTAG-to-SWD switch magic, LSB first on the wire.
pub open spec fn jtag_to_swd_magic() -> Seq<bool> {
    seq![
        false,
        true,
        true,
        true,
        true,
        false,
        false,
        true,
        true,
        true,
        true,
        false,
        false,
        true,
        true,
        true,
    ]
}

/// The whole SWD init preamble: 64 high bits (more than the 50 a line
/// reset needs), then the switch magic, all driven by the probe.
pub fn jtag_to_swd_switch_sequence() -> (r: IoSequence)
    ensures
        r.wf(),
        r.io@ == repeat_bit(true, 64) + jtag_to_swd_magic(),
        r.direction@ == repeat_bit(true, 80),
{
    let mut sequence = IoSequence::new();
    let ones = repeated_bits(true, 64);
    sequence.add_output_sequence(ones.as_slice());
    sequence.add_output(false);
    sequence.add_output(true);
    sequence.add_output(true);
    sequence.add_output(true);
    sequence.add_output(true);
    sequence.add_output(false);
    sequence.add_output(false);
    sequence.add_output(true);
    sequence.add_output(true);
    sequence.add_output(true);
    sequence.add_output(true);
    sequence.add_output(false);
    sequence.add_output(false);
    sequence.add_output(true);
    sequence.add_output(true);
    sequence.add_output(true);
    proof {
        assert(sequence.io@ =~= repeat_bit(true, 64) + jtag_to_swd_magic());
        assert(sequence.direction@ =~= repeat_bit(true, 80));
    }
    sequence
}

/// TMS and TDI resetting the JTAG chain: five high TMS cycles, then one
/// low to land in Run-Test/Idle.
pub fn jtag_reset_sequences() -> (r: (Vec<bool>, Vec<bool>))
    ensures
        r.0@ == seq![true, true, true, true, true, false],
        r.1@ == repeat_bit(false, 6),
{
    let mut tms: Vec<bool> = Vec::new();
    tms.push(true);
    tms.push(true);
    tms.push(true);
    tms.push(true);
    tms.push(true);
    tms.push(false);
    let tdi = repeated_bits(false, 6);
    proof {
        assert(tms@ =~= seq![true, true, true, true, true, false]);
    }
    (tms, tdi)
}

/// Ceiling division as the speed computation uses it.
pub open spec fn spec_div_ceil(a: nat, b: nat) -> nat
    recommends
        b > 0,
{
    (((a + b - 1) as int) / (b as int)) as nat
}

/// The divider the probe is programmed with for a requested speed.
pub open spec fn spec_speed_divider(base_freq: nat, min_div: nat, speed_khz: nat) -> nat {
    let div = spec_div_ceil(base_freq, 1000 * speed_khz);
    if div >= min_div {
        div
    } else {
        min_div
    }
}

/// The speed actually reached with that divider, in kHz, rounded up.
pub open spec fn spec_actual_speed_khz(base_freq: nat, min_div: nat, speed_khz: nat) -> nat {
    spec_div_ceil(
        (((base_freq as int) / (spec_speed_divider(base_freq, min_div, speed_khz) as int)) as nat),
        1000,
    )
}

/// Requested speeds must be nonzero and below the probe's 16-bit field.
pub fn validate_speed_request(speed_khz: u32) -> (r: Result<(), DebugProbeError>)
    ensures
        (speed_khz == 0 || speed_khz >= 0xffff) <==> r == Result::<(), DebugProbeError>::Err(
            DebugProbeError::UnsupportedSpeed(speed_khz),
        ),
        (1 <= speed_khz < 0xffff) <==> r == Result::<(), DebugProbeError>::Ok(()),
{
    if speed_khz == 0 || speed_khz >= 0xffff {
        Result::Err(DebugProbeError::UnsupportedSpeed(speed_khz))
    } else {
        Result::Ok(())
    }
}

/// Pick the divider for a requested speed and report the speed actually
/// reached; a probe that cannot stay at or below the request is refused.
pub fn compute_speed_config(base_freq: u32, min_div: u16, speed_khz: u32) -> (r: Result<
    u32,
    DebugProbeError,
>)
    requires
        min_div >= 1,
    ensures
        (speed_khz == 0 || speed_khz >= 0xffff) ==> r == Result::<u32, DebugProbeError>::Err(
            DebugProbeError::UnsupportedSpeed(speed_khz),
        ),
        (1 <= speed_khz < 0xffff) ==> {
            let actual = spec_actual_speed_khz(base_freq as nat, min_div as nat, speed_khz as nat);
            &&& actual > speed_khz ==> r == Result::<u32, DebugProbeError>::Err(
                DebugProbeError::UnsupportedSpeed(speed_khz),
            )
            &&& actual <= speed_khz ==> r == Result::<u32, DebugProbeError>::Ok(actual as u32)
        },
{
    if speed_khz == 0 || speed_khz >= 0xffff {
        return Result::Err(DebugProbeError::UnsupportedSpeed(speed_khz));
    }
    let speed_hz: u64 = 1000 * (speed_khz as u64);
    let base: u64 = base_freq as u64;
    let div_raw: u64 = (base + speed_hz - 1) / speed_hz;
    let div: u64 = if div_raw >= (min_div as u64) {
        div_raw
    } else {
        min_div as u64
    };
    let actual: u64 = ((base / div) + 999) / 1000;
    proof {
        assert(div >= 1);
        assert(actual as nat == spec_actual_speed_khz(
            base_freq as nat,
            min_div as nat,
            speed_khz as nat,
        ));
    }
    if actual > (speed_khz as u64) {
        return Result::Err(DebugProbeError::UnsupportedSpeed(speed_khz));
    }
    Result::Ok(actual as u32)
}

/// Attach over SWD: clock out the line-reset-plus-switch preamble (its
/// response is of no interest), then run a line reset, whose DPIDR read
/// decides whether the target now speaks SWD: `Ok` is only ever returned
/// when a sampled stream parsed as a successful DPIDR read after the
/// reset run.
pub fn attach_swd<P: RawSwdIo>(probe: &mut P) -> (r: Result<(), DebugProbeError>)
    ensures
        r is Ok ==> exists|bits: Seq<bool>|
            {
                &&& bits.len() == SWD_LINE_RESET_BITS + 48
                &&& (#[trigger] spec_parse_response(
                    bits.skip(SWD_LINE_RESET_BITS as int),
                    TransferType::Read,
                )) is Ok
            },
{
    let sequence = jtag_to_swd_switch_sequence();
    match probe.swd_io(sequence.direction_bits(), sequence.io_bits()) {
        Result::Ok(_) => {},
        Result::Err(e) => {
            return Result::Err(e);
        },
    }
    crate::dap::swd_line_reset(probe)
}

/// Attach over JTAG: reset the chain into Run-Test/Idle, then shift the
/// 32-bit IDCODE out of the DR.
pub fn attach_jtag<P: RawJtagIo>(probe: &mut P, state: &JtagState) -> (r: Result<
    u32,
    DebugProbeError,
>)
    ensures
        r matches Ok(idcode) ==> exists|tdo: Seq<bool>|
            {
                &&& tdo.len() == 37 + state.jtag_idle_cycles
                &&& idcode == le_word_of(#[trigger] dr_result_bytes(tdo.subrange(3, 35)))
            },
{
    let (tms, tdi) = jtag_reset_sequences();
    match probe.jtag_io(&tms, &tdi) {
        Result::Ok(_) => {},
        Result::Err(e) => {
            return Result::Err(e);
        },
    }
    let idcode_bytes = match read_dr(probe, state, 32) {
        Result::Ok(bytes) => bytes,
        Result::Err(e) => {
            return Result::Err(e);
        },
    };
    let idcode = word_from_le_bytes(&idcode_bytes);
    proof {
        let tdo = choose|tdo: Seq<bool>|
            {
                &&& tdo.len() == 32 + 5 + state.jtag_idle_cycles
                &&& idcode_bytes@ == #[trigger] dr_result_bytes(tdo.subrange(3, 35))
            };
        assert(tdo.len() == 37 + state.jtag_idle_cycles);
        assert(idcode == le_word_of(dr_result_bytes(tdo.subrange(3, 35))));
    }
    Result::Ok(idcode)
}

/// Whether one enumerated probe answers to a selector: vendor and product
/// must match, and the serial number too where the selector names one.
pub fn matches_selector(
    device_vid: u16,
    device_pid: u16,
    device_serial: &Vec<u8>,
    selector_vid: u16,
    selector_pid: u16,
    selector_serial: Option<&Vec<u8>>,
) -> (r: bool)
    ensures
        r == (device_vid == selector_vid && device_pid == selector_pid && match selector_serial {
            Some(s) => device_serial@ == s@,
            None => true,
        }),
{
    if device_vid != selector_vid || device_pid != selector_pid {
        return false;
    }
    match selector_serial {
        Some(s) => bytes_equal(device_serial, s),
        None => true,
    }
}

/// Element-wise equality of two byte strings.
pub fn bytes_equal(a: &Vec<u8>, b: &Vec<u8>) -> (r: bool)
    ensures
        r == (a@ == b@),
{
    if a.len() != b.len() {
        proof {
            assert(a@ != b@);
        }
        return false;
    }
    let mut i: usize = 0;
    while i < a.len()
        invariant
            a@.len() == b@.len(),
            i <= a@.len(),
            forall|j: int| 0 <= j < i ==> a@[j] == b@[j],
        decreases a@.len() - i,
    {
        if a[i] != b[i] {
            proof {
                assert(a@ != b@);
            }
            return false;
        }
        i = i + 1;
    }
    proof {
        assert(a@ =~= b@);
    }
    true
}

} // verus!
