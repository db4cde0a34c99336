//! The capabilities a probe transport must offer.
//!
//! A probe is a byte-streamed device that clocks prepared bit sequences out
//! on the wire and hands back the bits it sampled, one sample per cycle.
//! Everything above these two methods is verified; an implementation wraps
//! the actual USB device (or, in tests, replays canned samples).
//!
//! A transport may bound one burst: the J-Link command set counts a
//! burst's cycles in a 16-bit field. The sequencer caps its batches (see
//! [`crate::types::MAX_TRANSFER_BATCH`] and
//! [`crate::sequencer::lemma_burst_fits_probe`]) so that every burst it
//! hands an implementation stays under 65535 bits.

use vstd::prelude::*;
use crate::types::DebugProbeError;

verus! {

/// Bit-banged SWD: drive `swdio` under `dir` and sample one bit per cycle.
pub trait RawSwdIo {
    fn swd_io(&mut self, dir: &Vec<bool>, swdio: &Vec<bool>) -> (r: Result<
        Vec<bool>,
        DebugProbeError,
    >)
        requires
            dir@.len() == swdio@.len(),
        ensures
            r matches Ok(bits) ==> bits@.len() == dir@.len(),
    ;
}

/// Bit-banged JTAG: drive `tms` and `tdi` and sample TDO once per cycle.
pub trait RawJtagIo {
    fn jtag_io(&mut self, tms: &Vec<bool>, tdi: &Vec<bool>) -> (r: Result<
        Vec<bool>,
        DebugProbeError,
    >)
        requires
            tms@.len() == tdi@.len(),
        ensures
            r matches Ok(bits) ==> bits@.len() == tms@.len(),
    ;
}

} // verus!
