//! Building one SWD transaction as a bit sequence, and parsing its sampled
//! response.
//!
//! A frame is, in wire order: two idle bits, the eight request bits, one
//! turnaround, three ACK bits, and then either the 32 read data bits with
//! their parity and a trailing turnaround, or one more turnaround followed
//! by the 32 write data bits and their parity. Both shapes are 48 bits.
//!
//! The parse runs on the sampled stream at the same indices: the probe
//! samples on falling clock edges while the target drives on rising edges,
//! so the target's bits lead by one position and the first ACK bit lands on
//! what is nominally the turnaround slot.

use vstd::prelude::*;
use vstd::slice::slice_subrange;
use crate::bits::{
    bits_value, parity_of, popcount, bits_to_byte, parity_bits, lemma_bits_value_bound,
    lemma_parity_push, lemma_parity_is_popcount_mod2,
};
use crate::io_sequence::IoSequence;
use crate::types::{DapError, PortType, TransferType};
use vstd::arithmetic::power2::lemma2_to64;

verus! {

/// Wire length of one frame; reads and writes both come to 48 bits.
pub open spec fn spec_response_length(kind: TransferType) -> nat {
    match kind {
        TransferType::Read => 2 + 8 + 3 + 32 + 1 + 2,
        TransferType::Write(_) => 2 + 8 + 3 + 2 + 32 + 1,
    }
}

/// Address bit 2: the low wire address bit (registers are word-sized and
/// byte-addressed, so bits 0 and 1 never travel).
pub open spec fn addr_bit2(address: u16) -> bool {
    (address >> 2) & 0x01 == 1
}

/// Address bit 3: the high wire address bit.
pub open spec fn addr_bit3(address: u16) -> bool {
    (address >> 3) & 0x01 == 1
}

/// Bit `i` of a data word, LSB first.
pub open spec fn data_bit(value: u32, i: int) -> bool {
    (value >> (i as u32)) & 1 == 1
}

/// The 32 data bits of a word in wire order.
pub open spec fn data_bits(value: u32) -> Seq<bool> {
    Seq::new(32, |i: int| data_bit(value, i))
}

/// The two idle bits and the eight request bits, in emission order:
/// Start, APnDP, RnW, A2, A3, Parity, Stop, Park.
pub open spec fn request_bits(ap: bool, rnw: bool, a2: bool, a3: bool) -> Seq<bool> {
    seq![false, false, true, ap, rnw, a2, a3, ((ap != rnw) != a2) != a3, false, true]
}

/// The SWDIO values of one whole frame (input slots carry `false`).
pub open spec fn swd_frame_io(ap: bool, kind: TransferType, address: u16) -> Seq<bool> {
    let req = request_bits(ap, kind is Read, addr_bit2(address), addr_bit3(address));
    match kind {
        TransferType::Read => req + Seq::new(38, |i: int| false),
        TransferType::Write(v) => req + Seq::new(5, |i: int| false) + data_bits(v).push(
            parity_of(data_bits(v)),
        ),
    }
}

/// The direction line of one whole frame (`true` = probe drives).
pub open spec fn swd_frame_dir(kind: TransferType) -> Seq<bool> {
    match kind {
        TransferType::Read => Seq::new(10, |i: int| true) + Seq::new(38, |i: int| false),
        TransferType::Write(_) => Seq::new(10, |i: int| true) + Seq::new(5, |i: int| false)
            + Seq::new(33, |i: int| true),
    }
}

/// Both halves of a frame are exactly one response length long.
pub proof fn lemma_frame_len(ap: bool, kind: TransferType, address: u16)
    ensures
        swd_frame_io(ap, kind, address).len() == 48,
        swd_frame_dir(kind).len() == 48,
        spec_response_length(kind) == 48,
{
}

/// Strict ACK decoding: `{1,0,0}` = OK, `{0,1,0}` = WAIT, `{0,0,1}` =
/// FAULT, `{1,1,1}` = no target answered, every other pattern is a
/// protocol violation.
pub open spec fn decode_ack(a0: bool, a1: bool, a2: bool) -> Result<(), DapError> {
    if a0 && !a1 && !a2 {
        Result::Ok(())
    } else if !a0 && a1 && !a2 {
        Result::Err(DapError::WaitResponse)
    } else if !a0 && !a1 && a2 {
        Result::Err(DapError::FaultResponse)
    } else if a0 && a1 && a2 {
        Result::Err(DapError::NoAcknowledge)
    } else {
        Result::Err(DapError::SwdProtocol)
    }
}

/// What a sampled frame means: the ACK sits at bits 10..13; an OK read
/// carries its word at bits 13..45 with the parity bit at 45; an OK write
/// reports 0.
pub open spec fn spec_parse_response(resp: Seq<bool>, kind: TransferType) -> Result<u32, DapError>
    recommends
        resp.len() >= 48,
{
    match decode_ack(resp[10], resp[11], resp[12]) {
        Result::Err(e) => Result::Err(e),
        Result::Ok(()) => match kind {
            TransferType::Read => {
                let data = resp.subrange(13, 45);
                if parity_of(data) == resp[45] {
                    Result::Ok(bits_value(data) as u32)
                } else {
                    Result::Err(DapError::IncorrectParity)
                }
            },
            TransferType::Write(_) => Result::Ok(0),
        },
    }
}

/// Assemble the bit sequence of one SWD transfer.
pub fn build_swd_transfer(port: PortType, direction: TransferType, address: u16) -> (r: IoSequence)
    ensures
        r.wf(),
        r.io@ == swd_frame_io(port is AccessPort, direction, address),
        r.direction@ == swd_frame_dir(direction),
        r.io@.len() == 48,
{
    let ap = match port {
        PortType::DebugPort => false,
        PortType::AccessPort(_) => true,
    };
    let direction_bit = match direction {
        TransferType::Read => true,
        TransferType::Write(_) => false,
    };
    let a2 = (address >> 2) & 0x01 == 1;
    let a3 = (address >> 3) & 0x01 == 1;

    let mut sequence = IoSequence::new();

    // Idle, then Start, APnDP, RnW, A2, A3, Parity, Stop, Park.
    sequence.add_output(false);
    sequence.add_output(false);
    sequence.add_output(true);
    sequence.add_output(ap);
    sequence.add_output(direction_bit);
    sequence.add_output(a2);
    sequence.add_output(a3);
    sequence.add_output(((ap != direction_bit) != a2) != a3);
    sequence.add_output(false);
    sequence.add_output(true);

    proof {
        assert(sequence.io@ =~= request_bits(ap, direction is Read, addr_bit2(address), addr_bit3(
            address,
        )));
        assert(sequence.direction@ =~= Seq::new(10, |i: int| true));
    }

    // Turnaround, then the three ACK slots.
    sequence.add_input();
    sequence.add_input_sequence(3);

    if let TransferType::Write(value) = direction {
        // A second turnaround: one is in the specification, but targets in
        // the field want two before they accept write data.
        sequence.add_input();

        let ghost req = request_bits(ap, false, addr_bit2(address), addr_bit3(address));
        proof {
            assert(sequence.io@ =~= req + Seq::new(5, |i: int| false));
            assert(sequence.direction@ =~= Seq::new(10, |i: int| true) + Seq::new(
                5,
                |i: int| false,
            ));
            assert(data_bits(value).take(0) =~= Seq::<bool>::empty());
        }

        let mut parity = false;
        let mut j: usize = 0;
        while j < 32
            invariant
                j <= 32,
                sequence.wf(),
                sequence.io@ == req + Seq::new(5, |i: int| false) + data_bits(value).take(j as int),
                sequence.direction@ == Seq::new(10, |i: int| true) + Seq::new(5, |i: int| false)
                    + Seq::new(j as nat, |i: int| true),
                parity == parity_of(data_bits(value).take(j as int)),
            decreases 32 - j,
        {
            let bit = (value >> (j as u32)) & 1 == 1;
            proof {
                assert(data_bits(value)[j as int] == bit);
                assert(data_bits(value).take(j + 1) =~= data_bits(value).take(j as int).push(bit));
                lemma_parity_push(data_bits(value).take(j as int), bit);
            }
            sequence.add_output(bit);
            proof {
                assert(sequence.io@ =~= req + Seq::new(5, |i: int| false) + data_bits(value).take(
                    j + 1,
                ));
                assert(sequence.direction@ =~= Seq::new(10, |i: int| true) + Seq::new(
                    5,
                    |i: int| false,
                ) + Seq::new((j + 1) as nat, |i: int| true));
            }
            parity = parity != bit;
            j = j + 1;
        }

        proof {
            assert(data_bits(value).take(32) =~= data_bits(value));
        }
        sequence.add_output(parity);
        proof {
            assert(sequence.io@ =~= swd_frame_io(ap, direction, address));
            assert(sequence.direction@ =~= swd_frame_dir(direction));
        }
    } else {
        // 32 data slots, the parity slot, and the closing turnaround.
        sequence.add_input_sequence(32);
        sequence.add_input();
        sequence.add_input();
        proof {
            assert(sequence.io@ =~= swd_frame_io(ap, direction, address));
            assert(sequence.direction@ =~= swd_frame_dir(direction));
        }
    }

    sequence
}

/// Wire length of one frame of the given kind.
pub fn response_length(direction: TransferType) -> (r: usize)
    ensures
        r == spec_response_length(direction),
{
    match direction {
        TransferType::Read => 2 + 8 + 3 + 32 + 1 + 2,
        TransferType::Write(_) => 2 + 8 + 3 + 2 + 32 + 1,
    }
}

/// Decode one sampled frame.
pub fn parse_swd_response(response: &[bool], direction: TransferType) -> (r: Result<u32, DapError>)
    requires
        response@.len() >= 48,
    ensures
        r == spec_parse_response(response@, direction),
{
    let a0 = response[10];
    let a1 = response[11];
    let a2 = response[12];

    if a0 && !a1 && !a2 {
        match direction {
            TransferType::Read => {
                let data = slice_subrange(response, 13, 45);
                let value = bits_to_byte(data);
                let parity = parity_bits(data);
                proof {
                    assert(data@ =~= response@.subrange(13, 45));
                    assert(data@.take(32) =~= data@);
                    lemma_bits_value_bound(data@);
                    lemma2_to64();
                }
                if parity == response[45] {
                    Result::Ok(value)
                } else {
                    Result::Err(DapError::IncorrectParity)
                }
            },
            TransferType::Write(_) => Result::Ok(0),
        }
    } else if !a0 && a1 && !a2 {
        Result::Err(DapError::WaitResponse)
    } else if !a0 && !a1 && a2 {
        Result::Err(DapError::FaultResponse)
    } else if a0 && a1 && a2 {
        Result::Err(DapError::NoAcknowledge)
    } else {
        Result::Err(DapError::SwdProtocol)
    }
}

/// Parsing is a pure function of the 48 frame bits: two streams that agree
/// on them parse alike, however they go on.
pub proof fn lemma_parse_depends_on_frame_only(r1: Seq<bool>, r2: Seq<bool>, kind: TransferType)
    requires
        r1.len() >= 48,
        r2.len() >= 48,
        forall|i: int| 0 <= i < 48 ==> r1[i] == r2[i],
    ensures
        spec_parse_response(r1, kind) == spec_parse_response(r2, kind),
{
    assert(r1.subrange(13, 45) =~= r2.subrange(13, 45));
}

/// Exactly one outcome per ACK pattern: OK, WAIT, FAULT and no-response
/// each answer to a single well-formed pattern, and every other pattern is
/// a protocol violation.
pub proof fn lemma_ack_decoding(a0: bool, a1: bool, a2: bool)
    ensures
        (decode_ack(a0, a1, a2) == Result::<(), DapError>::Ok(())) <==> (a0 && !a1 && !a2),
        (decode_ack(a0, a1, a2) == Result::<(), DapError>::Err(DapError::WaitResponse)) <==> (!a0
            && a1 && !a2),
        (decode_ack(a0, a1, a2) == Result::<(), DapError>::Err(DapError::FaultResponse)) <==> (!a0
            && !a1 && a2),
        (decode_ack(a0, a1, a2) == Result::<(), DapError>::Err(DapError::NoAcknowledge)) <==> (a0
            && a1 && a2),
        (decode_ack(a0, a1, a2) == Result::<(), DapError>::Err(DapError::SwdProtocol)) <==> !((a0
            && !a1 && !a2) || (!a0 && a1 && !a2) || (!a0 && !a1 && a2) || (a0 && a1 && a2)),
{
}

/// A read that parses as OK carries a payload whose popcount parity equals
/// the transmitted parity bit.
pub proof fn lemma_read_parity(resp: Seq<bool>, value: u32)
    requires
        resp.len() >= 48,
        spec_parse_response(resp, TransferType::Read) == Result::<u32, DapError>::Ok(value),
    ensures
        (popcount(value as nat) % 2 == 1) == resp[45],
{
    let data = resp.subrange(13, 45);
    lemma_bits_value_bound(data);
    lemma2_to64();
    assert(value == bits_value(data) as u32);
    assert(value as nat == bits_value(data));
    lemma_parity_is_popcount_mod2(data);
}

} // verus!
