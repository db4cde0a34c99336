//! Bit-exact SWD/JTAG wire-sequence construction and the DAP protocol state
//! machine for a J-Link style debug probe.
//!
//! The probe itself is only reached through the [`probe::RawSwdIo`] and
//! [`probe::RawJtagIo`] capabilities; everything that decides which bits go
//! on the wire, and what the sampled bits mean, is verified here.
//!
//! - [`io_sequence`]: co-indexed (value, direction) bit sequences.
//! - [`swd`]: building one SWD frame and parsing its sampled response.
//! - [`sequencer`]: batching transfers into one burst under the SWD
//!   pipeline rules, and mapping every response back to its transfer.
//! - [`jtag`]: TMS/TDI shift sequences, DR packing, and the 5-bit register
//!   interface with its IR-skip rule.
//! - [`dap`]: per-register operations with WAIT/FAULT recovery and the
//!   retry cap.
//! - [`setup`]: protocol selection, attach preambles, speed configuration.

pub mod bits;
pub mod dap;
pub mod io_sequence;
pub mod jtag;
pub mod probe;
pub mod sequencer;
pub mod setup;
pub mod swd;
pub mod types;
