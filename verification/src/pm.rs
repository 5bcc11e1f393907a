//! Model of the power-manager peripheral: the bus-clock mask registers that
//! gate each peripheral's clock, and the reset-cause register.

use vstd::prelude::*;

verus! {

/// Bit for the DMA controller in the AHB bus mask.
pub const AHBMASK_DMAC: u32 = 1u32 << 5;

/// Bit for the DMA controller in the APBB bus mask.
pub const APBBMASK_DMAC: u32 = 1u32 << 4;

/// Bit for the real-time counter in the APBA bus mask.
pub const APBAMASK_RTC: u32 = 1u32 << 5;

/// Bit for the analog-to-digital converter in the APBC bus mask.
pub const APBCMASK_ADC: u32 = 1u32 << 16;

/// Bits for the three timer/counter instances in the APBC bus mask.
pub const APBCMASK_TC3: u32 = 1u32 << 11;

pub const APBCMASK_TC4: u32 = 1u32 << 12;

pub const APBCMASK_TC5: u32 = 1u32 << 13;

/// The power manager's registers, as plain values.
pub struct PM {
    /// AHB bus clock mask.
    pub ahbmask: u32,
    /// APBA bus clock mask.
    pub apbamask: u32,
    /// APBB bus clock mask.
    pub apbbmask: u32,
    /// APBC bus clock mask.
    pub apbcmask: u32,
    /// Reset-cause register.
    pub rcause: u8,
}

impl PM {
    /// A power manager with every register at its reset value.
    pub fn new() -> (pm: PM)
        ensures
            pm.ahbmask == 0,
            pm.apbamask == 0,
            pm.apbbmask == 0,
            pm.apbcmask == 0,
            pm.rcause == 0,
    {
        PM { ahbmask: 0, apbamask: 0, apbbmask: 0, apbcmask: 0, rcause: 0 }
    }
}

} // verus!
