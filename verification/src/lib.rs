//! Register-level driver model for a small microcontroller's DMA subsystem:
//! transfer descriptors and their control-word encoding, the DMA controller
//! with its per-channel base/writeback descriptor tables, and a circular
//! streaming buffer built on a closed ring of descriptors, together with the
//! surrounding timer, counter, and converter peripherals it cooperates with.

use vstd::prelude::*;

pub mod adc;
pub mod dmac;
pub mod eic;
pub mod event_counter;
pub mod events;
pub mod pm;
pub mod registers;
pub mod rtc;
pub mod tc;
pub mod timeout;
pub mod timer;
pub mod uart;

verus! {

/// The would-block signal of a non-blocking operation: nothing to do yet;
/// try again after the hardware has made progress.
#[derive(Debug, Clone, Copy, PartialEq, Eq, Structural)]
pub struct WouldBlock;

/// The reason the processor was last reset, decoded from the reset-cause
/// register's one-hot bit value.
#[derive(Debug, Clone, Copy, PartialEq, Eq, Structural)]
pub enum ResetCause {
    Unknown,
    POR,
    BOD12,
    BOD33,
    External,
    Watchdog,
    System,
}

/// The reset cause encoded by a raw reset-cause register value: each known
/// cause is a single set bit; anything else decodes as `Unknown`.
pub open spec fn spec_reset_cause(rcause_val: u8) -> ResetCause {
    match rcause_val {
        1 => ResetCause::POR,
        2 => ResetCause::BOD12,
        4 => ResetCause::BOD33,
        16 => ResetCause::External,
        32 => ResetCause::Watchdog,
        64 => ResetCause::System,
        _ => ResetCause::Unknown,
    }
}

impl ResetCause {
    /// Decode a raw reset-cause register value.
    pub fn from_bits(rcause_val: u8) -> (r: ResetCause)
        ensures
            r == spec_reset_cause(rcause_val),
    {
        match rcause_val {
            1 => ResetCause::POR,
            2 => ResetCause::BOD12,
            4 => ResetCause::BOD33,
            16 => ResetCause::External,
            32 => ResetCause::Watchdog,
            64 => ResetCause::System,
            _ => ResetCause::Unknown,
        }
    }
}

/// Returns the cause of the last reset.
pub fn reset_cause(pm: &pm::PM) -> (r: ResetCause)
    ensures
        r == spec_reset_cause(pm.rcause),
{
    ResetCause::from_bits(pm.rcause)
}

} // verus!
