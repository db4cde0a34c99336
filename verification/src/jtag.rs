//! The JTAG shifter: TMS/TDI sequences for IR and DR shift-update cycles,
//! the little-endian packing of shifted-out bits, and the 5-bit-addressed
//! register interface with its IR-skip rule.
//!
//! All traversals start and end in Run-Test/Idle: Shift-DR is entered with
//! TMS `1,0,0`, Shift-IR with `1,1,0,0`, and a shift is left for Update
//! and back to Idle with `1,1,0`. The last data bit is clocked while TMS
//! rises out of the shift state, so a shift of `n` bits stays in the state
//! for only `n - 1` cycles.

use vstd::prelude::*;
use vstd::slice::slice_subrange;
use vstd::arithmetic::power2::{pow2, lemma2_to64};
use crate::bits::{bits_value, bits_to_byte, lemma_bits_value_bound, repeat_bit};
use crate::probe::RawJtagIo;
use crate::types::DebugProbeError;

verus! {

/// Bit `k` of one byte, LSB first.
pub open spec fn byte_bit(b: u8, k: int) -> bool {
    (b >> (k as u8)) & 1 == 1
}

/// The first `nbits` bits of a byte string, each byte LSB first.
pub open spec fn data_bits_of_bytes(data: Seq<u8>, nbits: nat) -> Seq<bool>
    recommends
        nbits <= data.len() * 8,
{
    Seq::new(nbits, |i: int| byte_bit(data[i / 8], i % 8))
}

/// TMS for a DR shift of `n` bits, ending in `idle` idle cycles.
pub open spec fn dr_tms(n: nat, idle: nat) -> Seq<bool>
    recommends
        n >= 1,
{
    seq![true, false, false] + repeat_bit(false, (n - 1) as nat) + seq![true, true, false]
        + repeat_bit(false, idle)
}

/// TDI during a DR read: all zeros, as long as the TMS sequence.
pub open spec fn dr_read_tdi(n: nat, idle: nat) -> Seq<bool> {
    repeat_bit(false, n + 5 + idle)
}

/// TDI during a DR write: three zeros entering the shift, the data bits,
/// and two zeros on the way back to Idle, then the idle cycles.
pub open spec fn dr_write_tdi(data: Seq<u8>, n: nat, idle: nat) -> Seq<bool> {
    repeat_bit(false, 3) + data_bits_of_bytes(data, n) + repeat_bit(false, 2) + repeat_bit(
        false,
        idle,
    )
}

/// TMS for an IR shift of `len` bits.
pub open spec fn ir_tms(len: nat) -> Seq<bool>
    recommends
        len >= 1,
{
    seq![true, true, false, false] + repeat_bit(false, (len - 1) as nat) + seq![true, true, false]
}

/// TDI for an IR shift: four zeros entering, the data bits, two zeros out.
pub open spec fn ir_tdi(data: Seq<u8>, len: nat) -> Seq<bool> {
    repeat_bit(false, 4) + data_bits_of_bytes(data, len) + repeat_bit(false, 2)
}

/// Little-endian packing of shifted-out bits: eight at a time, the last
/// byte holding whatever is left.
pub open spec fn dr_result_bytes(bits: Seq<bool>) -> Seq<u8>
    decreases bits.len(),
{
    if bits.len() == 0 {
        Seq::<u8>::empty()
    } else if bits.len() >= 8 {
        seq![bits_value(bits.take(8)) as u8] + dr_result_bytes(bits.skip(8))
    } else {
        seq![bits_value(bits) as u8]
    }
}

/// A shift of `n` bits packs into exactly `ceil(n / 8)` bytes.
pub proof fn lemma_dr_result_len(bits: Seq<bool>)
    ensures
        dr_result_bytes(bits).len() == (bits.len() + 7) / 8,
    decreases bits.len(),
{
    if bits.len() >= 8 {
        lemma_dr_result_len(bits.skip(8));
    }
}

/// Append `count` low bits.
fn push_low(v: &mut Vec<bool>, count: usize)
    requires
        old(v)@.len() + count <= usize::MAX,
    ensures
        final(v)@ == old(v)@ + repeat_bit(false, count as nat),
{
    let mut i: usize = 0;
    proof {
        assert(v@ =~= old(v)@ + repeat_bit(false, 0));
    }
    while i < count
        invariant
            i <= count,
            v@ == old(v)@ + repeat_bit(false, i as nat),
        decreases count - i,
    {
        v.push(false);
        proof {
            assert(v@ =~= old(v)@ + repeat_bit(false, (i + 1) as nat));
        }
        i = i + 1;
    }
}

/// Append the first `nbits` bits of `data`, each byte LSB first.
fn push_data_bits(v: &mut Vec<bool>, data: &[u8], nbits: usize)
    requires
        nbits <= data@.len() * 8,
        old(v)@.len() + nbits <= usize::MAX,
    ensures
        final(v)@ == old(v)@ + data_bits_of_bytes(data@, nbits as nat),
{
    let mut i: usize = 0;
    proof {
        assert(v@ =~= old(v)@ + data_bits_of_bytes(data@, 0));
    }
    while i < nbits
        invariant
            i <= nbits,
            nbits <= data@.len() * 8,
            v@ == old(v)@ + data_bits_of_bytes(data@, i as nat),
        decreases nbits - i,
    {
        proof {
            assert(i / 8 < data@.len()) by {
                assert(i < data@.len() * 8);
            };
        }
        let byte = data[i / 8];
        let k = (i % 8) as u8;
        let bit = (byte >> k) & 1 == 1;
        v.push(bit);
        proof {
            assert(bit == byte_bit(data@[i as int / 8], i as int % 8));
            assert(v@ =~= old(v)@ + data_bits_of_bytes(data@, (i + 1) as nat));
        }
        i = i + 1;
    }
}

/// The TMS and TDI streams of a DR read.
pub fn build_dr_read_sequences(register_bits: usize, idle_cycles: u8) -> (r: (Vec<bool>, Vec<
    bool,
>))
    requires
        1 <= register_bits,
        register_bits <= 0x0001_0000,
    ensures
        r.0@ == dr_tms(register_bits as nat, idle_cycles as nat),
        r.1@ == dr_read_tdi(register_bits as nat, idle_cycles as nat),
        r.0@.len() == r.1@.len(),
        r.0@.len() == register_bits + 5 + idle_cycles,
{
    let mut tms: Vec<bool> = Vec::new();
    tms.push(true);
    tms.push(false);
    tms.push(false);
    let ghost enter = tms@;
    push_low(&mut tms, register_bits - 1);
    tms.push(true);
    tms.push(true);
    tms.push(false);
    push_low(&mut tms, idle_cycles as usize);
    let mut tdi: Vec<bool> = Vec::new();
    push_low(&mut tdi, register_bits + 5 + idle_cycles as usize);
    proof {
        assert(enter =~= seq![true, false, false]);
        assert(tms@ =~= dr_tms(register_bits as nat, idle_cycles as nat));
        assert(tdi@ =~= dr_read_tdi(register_bits as nat, idle_cycles as nat));
    }
    (tms, tdi)
}

/// The TMS and TDI streams of a DR write.
pub fn build_dr_write_sequences(data: &[u8], register_bits: usize, idle_cycles: u8) -> (r: (Vec<
    bool,
>, Vec<bool>))
    requires
        1 <= register_bits,
        register_bits <= 0x0001_0000,
        data@.len() * 8 >= register_bits,
    ensures
        r.0@ == dr_tms(register_bits as nat, idle_cycles as nat),
        r.1@ == dr_write_tdi(data@, register_bits as nat, idle_cycles as nat),
        r.0@.len() == r.1@.len(),
        r.0@.len() == register_bits + 5 + idle_cycles,
{
    let mut tms: Vec<bool> = Vec::new();
    tms.push(true);
    tms.push(false);
    tms.push(false);
    let ghost enter = tms@;
    push_low(&mut tms, register_bits - 1);
    tms.push(true);
    tms.push(true);
    tms.push(false);
    push_low(&mut tms, idle_cycles as usize);

    let mut tdi: Vec<bool> = Vec::new();
    push_low(&mut tdi, 3);
    push_data_bits(&mut tdi, data, register_bits);
    push_low(&mut tdi, 2);
    push_low(&mut tdi, idle_cycles as usize);
    proof {
        assert(enter =~= seq![true, false, false]);
        assert(tms@ =~= dr_tms(register_bits as nat, idle_cycles as nat));
        assert(tdi@ =~= dr_write_tdi(data@, register_bits as nat, idle_cycles as nat));
    }
    (tms, tdi)
}

/// The TMS and TDI streams of an IR write.
pub fn build_ir_sequences(data: &[u8], len: usize) -> (r: (Vec<bool>, Vec<bool>))
    requires
        1 <= len,
        len <= 8,
        data@.len() * 8 >= len,
    ensures
        r.0@ == ir_tms(len as nat),
        r.1@ == ir_tdi(data@, len as nat),
        r.0@.len() == r.1@.len(),
        r.0@.len() == len + 6,
{
    let mut tms: Vec<bool> = Vec::new();
    tms.push(true);
    tms.push(true);
    tms.push(false);
    tms.push(false);
    let ghost enter = tms@;
    push_low(&mut tms, len - 1);
    tms.push(true);
    tms.push(true);
    tms.push(false);

    let mut tdi: Vec<bool> = Vec::new();
    push_low(&mut tdi, 4);
    push_data_bits(&mut tdi, data, len);
    push_low(&mut tdi, 2);
    proof {
        assert(enter =~= seq![true, true, false, false]);
        assert(tms@ =~= ir_tms(len as nat));
        assert(tdi@ =~= ir_tdi(data@, len as nat));
    }
    (tms, tdi)
}

/// Pack the shifted-out DR content: drop the three bits sampled while
/// entering the shift state, then read `register_bits` bits into bytes.
pub fn parse_dr_response(response: &[bool], register_bits: usize) -> (r: Vec<u8>)
    requires
        response@.len() >= 3 + register_bits,
    ensures
        r@ == dr_result_bytes(response@.subrange(3, 3 + register_bits as int)),
        r@.len() == (register_bits + 7) / 8,
{
    let ghost data = response@.subrange(3, 3 + register_bits as int);
    let resp_len = response.len();
    let mut result: Vec<u8> = Vec::new();
    let mut consumed: usize = 0;
    proof {
        assert(data.skip(0) =~= data);
    }
    while register_bits - consumed >= 8
        invariant
            consumed <= register_bits,
            consumed == 8 * result@.len(),
            response@.len() >= 3 + register_bits,
            data == response@.subrange(3, 3 + register_bits as int),
            dr_result_bytes(data) == result@ + dr_result_bytes(data.skip(consumed as int)),
        decreases register_bits - consumed,
    {
        let chunk = slice_subrange(response, 3 + consumed, 3 + consumed + 8);
        let byte_val = bits_to_byte(chunk);
        proof {
            let rest = data.skip(consumed as int);
            assert(chunk@ =~= rest.take(8));
            assert(chunk@.take(8) =~= chunk@);
            lemma_bits_value_bound(chunk@);
            lemma2_to64();
            assert(rest.skip(8) =~= data.skip(consumed as int + 8));
            assert(dr_result_bytes(rest) == seq![bits_value(rest.take(8)) as u8]
                + dr_result_bytes(rest.skip(8)));
        }
        let byte = byte_val as u8;
        result.push(byte);
        proof {
            assert(dr_result_bytes(data) =~= result@ + dr_result_bytes(
                data.skip(consumed as int + 8),
            ));
        }
        consumed = consumed + 8;
    }
    if register_bits - consumed > 0 {
        let remaining = register_bits - consumed;
        proof {
            assert(3 + consumed + remaining <= resp_len);
        }
        let chunk = slice_subrange(response, 3 + consumed, 3 + consumed + remaining);
        let byte_val = bits_to_byte(chunk);
        proof {
            let rest = data.skip(consumed as int);
            assert(chunk@ =~= rest);
            assert(chunk@.take(chunk@.len() as int) =~= chunk@);
            lemma_bits_value_bound(chunk@);
            lemma2_to64();
            assert(pow2(chunk@.len()) <= pow2(8)) by {
                if chunk@.len() < 8 {
                    vstd::arithmetic::power2::lemma_pow2_strictly_increases(chunk@.len(), 8);
                }
            }
            assert(dr_result_bytes(rest) == seq![bits_value(rest) as u8]);
        }
        let byte = byte_val as u8;
        result.push(byte);
        proof {
            assert(dr_result_bytes(data) =~= result@);
        }
    } else {
        proof {
            assert(data.skip(consumed as int) =~= Seq::<bool>::empty());
            assert(dr_result_bytes(data) =~= result@);
        }
    }
    proof {
        lemma_dr_result_len(data);
    }
    result
}

/// JTAG-side driver state: the last IR value written (or the sentinel `1`,
/// which no fresh 5-bit address write can equal) and the idle cycles run
/// after each DR access.
pub struct JtagState {
    pub current_ir: u32,
    pub jtag_idle_cycles: u8,
    /// How many IR writes have been issued; carried to state the IR-skip
    /// rule.
    pub ir_writes: Ghost<nat>,
}

impl JtagState {
    pub fn new() -> (r: JtagState)
        ensures
            r.current_ir == 1,
            r.jtag_idle_cycles == 0,
            r.ir_writes@ == 0,
    {
        JtagState { current_ir: 1, jtag_idle_cycles: 0, ir_writes: Ghost(0) }
    }

    pub fn idle_cycles(&self) -> (r: u8)
        ensures
            r == self.jtag_idle_cycles,
    {
        self.jtag_idle_cycles
    }

    pub fn set_idle_cycles(&mut self, idle_cycles: u8)
        ensures
            final(self).jtag_idle_cycles == idle_cycles,
            final(self).current_ir == old(self).current_ir,
            final(self).ir_writes@ == old(self).ir_writes@,
    {
        self.jtag_idle_cycles = idle_cycles;
    }
}

/// An access must write the IR first unless the chain already holds the
/// address.
pub open spec fn needs_ir_write(state: JtagState, address: u32) -> bool {
    state.current_ir != address
}

/// The IR-skip rule: a register access whose address is already in the IR
/// issues no IR write, and a successful access always leaves its address
/// in the IR — so back-to-back accesses to one address write the IR at
/// most once, on the first access.
pub proof fn lemma_ir_skip(state: JtagState, address: u32)
    requires
        state.current_ir == address,
    ensures
        !needs_ir_write(state, address),
{
}

/// Shift `register_bits` bits out of the DR, packing them into bytes.
pub fn read_dr<P: RawJtagIo>(probe: &mut P, state: &JtagState, register_bits: usize) -> (r: Result<
    Vec<u8>,
    DebugProbeError,
>)
    requires
        1 <= register_bits,
        register_bits <= 0x0001_0000,
    ensures
        r matches Ok(bytes) ==> {
            &&& bytes@.len() == (register_bits + 7) / 8
            &&& exists|tdo: Seq<bool>|
                {
                    &&& tdo.len() == register_bits + 5 + state.jtag_idle_cycles
                    &&& bytes@ == #[trigger] dr_result_bytes(
                        tdo.subrange(3, 3 + register_bits as int),
                    )
                }
        },
{
    let (tms, tdi) = build_dr_read_sequences(register_bits, state.jtag_idle_cycles);
    let response = match probe.jtag_io(&tms, &tdi) {
        Result::Ok(bits) => bits,
        Result::Err(e) => {
            return Result::Err(e);
        },
    };
    let bytes = parse_dr_response(response.as_slice(), register_bits);
    proof {
        let tdo = response@;
        assert(tdo.len() == register_bits + 5 + state.jtag_idle_cycles);
        assert(bytes@ == dr_result_bytes(tdo.subrange(3, 3 + register_bits as int)));
    }
    Result::Ok(bytes)
}

/// Shift `data` into the DR, returning the prior DR content.
pub fn write_dr<P: RawJtagIo>(
    probe: &mut P,
    state: &JtagState,
    data: &[u8],
    register_bits: usize,
) -> (r: Result<Vec<u8>, DebugProbeError>)
    requires
        1 <= register_bits,
        register_bits <= 0x0001_0000,
        data@.len() * 8 >= register_bits,
    ensures
        r matches Ok(bytes) ==> {
            &&& bytes@.len() == (register_bits + 7) / 8
            &&& exists|tdo: Seq<bool>|
                {
                    &&& tdo.len() == register_bits + 5 + state.jtag_idle_cycles
                    &&& bytes@ == #[trigger] dr_result_bytes(
                        tdo.subrange(3, 3 + register_bits as int),
                    )
                }
        },
{
    let (tms, tdi) = build_dr_write_sequences(data, register_bits, state.jtag_idle_cycles);
    let response = match probe.jtag_io(&tms, &tdi) {
        Result::Ok(bits) => bits,
        Result::Err(e) => {
            return Result::Err(e);
        },
    };
    let bytes = parse_dr_response(response.as_slice(), register_bits);
    proof {
        let tdo = response@;
        assert(tdo.len() == register_bits + 5 + state.jtag_idle_cycles);
        assert(bytes@ == dr_result_bytes(tdo.subrange(3, 3 + register_bits as int)));
    }
    Result::Ok(bytes)
}

/// Shift `len` bits of `data` into the IR. The inputs are validated first;
/// IR registers beyond 8 bits are not supported.
pub fn write_ir<P: RawJtagIo>(probe: &mut P, state: &mut JtagState, data: &[u8], len: usize) -> (r:
    Result<(), DebugProbeError>)
    ensures
        final(state).jtag_idle_cycles == old(state).jtag_idle_cycles,
        (len < 1 || data@.len() * 8 < len || len > 8) ==> (r is Err && *final(state) == *old(state)),
        (1 <= len <= 8 && data@.len() * 8 >= len) ==> final(state).ir_writes@ == old(
            state,
        ).ir_writes@ + 1,
        final(state).ir_writes@ <= old(state).ir_writes@ + 1,
        r is Ok ==> (1 <= len <= 8 && data@.len() * 8 >= len && final(state).current_ir == data@[0]
            as u32),
        r is Err ==> final(state).current_ir == old(state).current_ir,
{
    if len < 1 {
        return Result::Err(DebugProbeError::NotImplemented("IR transfers need at least one bit"));
    }
    if len > 8 {
        return Result::Err(
            DebugProbeError::NotImplemented("Not yet implemented for IR registers larger than 8 bit"),
        );
    }
    if data.len() == 0 {
        return Result::Err(DebugProbeError::NotImplemented("IR data shorter than the IR length"));
    }
    proof {
        assert(data@.len() * 8 >= len);
    }
    let (tms, tdi) = build_ir_sequences(data, len);
    state.ir_writes = Ghost(state.ir_writes@ + 1);
    match probe.jtag_io(&tms, &tdi) {
        Result::Ok(_) => {
            state.current_ir = data[0] as u32;
            Result::Ok(())
        },
        Result::Err(e) => Result::Err(e),
    }
}

/// Read `len` bits of the register behind the 5-bit address, writing the
/// IR only when the chain holds another address.
pub fn read_register<P: RawJtagIo>(
    probe: &mut P,
    state: &mut JtagState,
    address: u32,
    len: u32,
) -> (r: Result<Vec<u8>, DebugProbeError>)
    requires
        1 <= len,
        len <= 0x0001_0000,
    ensures
        final(state).jtag_idle_cycles == old(state).jtag_idle_cycles,
        address > 0x1f ==> (r matches Err(DebugProbeError::NotImplemented(_)) && *final(state)
            == *old(state)),
        !needs_ir_write(*old(state), address) ==> (final(state).ir_writes@ == old(
            state,
        ).ir_writes@ && final(state).current_ir == old(state).current_ir),
        final(state).ir_writes@ <= old(state).ir_writes@ + (if needs_ir_write(
            *old(state),
            address,
        ) {
            1nat
        } else {
            0nat
        }),
        (r is Ok && address <= 0x1f) ==> final(state).current_ir == address,
        r matches Ok(bytes) ==> bytes@.len() == (len as nat + 7) / 8,
{
    if address > 0x1f {
        return Result::Err(
            DebugProbeError::NotImplemented("JTAG Register addresses are fixed to 5 bits"),
        );
    }
    if state.current_ir != address {
        let mut address_bytes: Vec<u8> = Vec::new();
        address_bytes.push(address as u8);
        match write_ir(probe, state, address_bytes.as_slice(), 5) {
            Result::Ok(()) => {},
            Result::Err(e) => {
                return Result::Err(e);
            },
        }
        proof {
            assert(state.current_ir == address);
        }
    }
    read_dr(probe, state, len as usize)
}

/// Write `len` bits into the register behind the 5-bit address, returning
/// the prior register content; the IR is written only when the chain holds
/// another address.
pub fn write_register<P: RawJtagIo>(
    probe: &mut P,
    state: &mut JtagState,
    address: u32,
    data: &[u8],
    len: u32,
) -> (r: Result<Vec<u8>, DebugProbeError>)
    requires
        1 <= len,
        len <= 0x0001_0000,
        data@.len() * 8 >= len,
    ensures
        final(state).jtag_idle_cycles == old(state).jtag_idle_cycles,
        address > 0x1f ==> (r matches Err(DebugProbeError::NotImplemented(_)) && *final(state)
            == *old(state)),
        !needs_ir_write(*old(state), address) ==> (final(state).ir_writes@ == old(
            state,
        ).ir_writes@ && final(state).current_ir == old(state).current_ir),
        final(state).ir_writes@ <= old(state).ir_writes@ + (if needs_ir_write(
            *old(state),
            address,
        ) {
            1nat
        } else {
            0nat
        }),
        (r is Ok && address <= 0x1f) ==> final(state).current_ir == address,
        r matches Ok(bytes) ==> bytes@.len() == (len as nat + 7) / 8,
{
    if address > 0x1f {
        return Result::Err(
            DebugProbeError::NotImplemented("JTAG Register addresses are fixed to 5 bits"),
        );
    }
    if state.current_ir != address {
        let mut address_bytes: Vec<u8> = Vec::new();
        address_bytes.push(address as u8);
        match write_ir(probe, state, address_bytes.as_slice(), 5) {
            Result::Ok(()) => {},
            Result::Err(e) => {
                return Result::Err(e);
            },
        }
        proof {
            assert(state.current_ir == address);
        }
    }
    write_dr(probe, state, data, len as usize)
}

} // verus!
