//! The external-interrupt controller: sixteen numbered interrupt lines,
//! each with its own sense configuration, optional filtering, and event,
//! interrupt and wake-up enables.

use vstd::prelude::*;

verus! {

/// Number of external interrupt lines.
pub const NUM_LINES: u8 = 16;

/// The edge or level a line is sensitive to.
#[derive(Debug, Clone, Copy, PartialEq, Eq, Structural)]
pub enum Sense {
    /// No detection.
    NoDetect,
    Rise,
    Fall,
    Both,
    High,
    Low,
}

impl Sense {
    /// The sense field's encoding of this setting.
    pub open spec fn spec_code(self) -> u32 {
        match self {
            Sense::NoDetect => 0,
            Sense::Rise => 1,
            Sense::Fall => 2,
            Sense::Both => 3,
            Sense::High => 4,
            Sense::Low => 5,
        }
    }

    pub fn code(self) -> (r: u32)
        ensures
            r == self.spec_code(),
    {
        match self {
            Sense::NoDetect => 0,
            Sense::Rise => 1,
            Sense::Fall => 2,
            Sense::Both => 3,
            Sense::High => 4,
            Sense::Low => 5,
        }
    }
}

/// The controller's registers, as effective values; the per-line sense and
/// filter settings live in two configuration registers of eight four-bit
/// groups each.
pub struct EIC {
    /// Per-line output-event enables.
    pub evctrl: u32,
    /// Armed per-line interrupts.
    pub int_enabled: u32,
    /// Per-line wake-up enables.
    pub wakeup: u32,
    /// Pending per-line flags; acknowledging clears them.
    pub intflag: u32,
    /// The two configuration registers.
    pub config: Vec<u32>,
}

impl EIC {
    /// Both configuration registers are present.
    pub open spec fn wf(self) -> bool {
        self.config.len() == 2
    }

    /// A controller with every register at its reset value.
    pub fn new() -> (e: EIC)
        ensures
            e.wf(),
            e.evctrl == 0,
            e.int_enabled == 0,
            e.wakeup == 0,
            e.intflag == 0,
            e.config@ == seq![0u32, 0u32],
    {
        let mut config: Vec<u32> = Vec::new();
        config.push(0);
        config.push(0);
        proof {
            assert(config@ =~= seq![0u32, 0u32]);
        }
        EIC { evctrl: 0, int_enabled: 0, wakeup: 0, intflag: 0, config }
    }
}

/// Conversion of a pin into its numbered external-interrupt line. Only the
/// pin wirings fixed by the part make sense, so implementations come with
/// the pin definitions, not from users.
pub trait EicPin<T> {
    fn into_ei(self) -> T;
}

/// Which configuration register holds line `num`'s settings, and at which
/// bit its four-bit group starts.
pub open spec fn config_offset(num: u8) -> int {
    ((num >> 3) & 0x01) as int
}

pub open spec fn config_shift(num: u8) -> u32 {
    (((num & 0x07) as u32) * 4) as u32
}

/// One numbered external interrupt line.
pub struct ExtInt {
    pub num: u8,
}

impl ExtInt {
    /// The line for number `num`.
    pub fn new(num: u8) -> (e: ExtInt)
        requires
            num < NUM_LINES,
        ensures
            e.num == num,
    {
        ExtInt { num }
    }

    /// The line's settings stay inside the two configuration registers.
    pub open spec fn wf(self) -> bool {
        self.num < NUM_LINES
    }

    /// Emit an event on detection.
    pub fn enable_event(&mut self, eic: &mut EIC)
        requires
            old(self).wf(),
            old(eic).wf(),
        ensures
            final(self).num == old(self).num,
            *final(eic) == (EIC {
                evctrl: old(eic).evctrl | (1u32 << old(self).num),
                ..*old(eic)
            }),
    {
        eic.evctrl = eic.evctrl | (1u32 << self.num);
    }

    /// Arm the line's interrupt.
    pub fn enable_interrupt(&mut self, eic: &mut EIC)
        requires
            old(self).wf(),
            old(eic).wf(),
        ensures
            final(self).num == old(self).num,
            *final(eic) == (EIC {
                int_enabled: old(eic).int_enabled | (1u32 << old(self).num),
                ..*old(eic)
            }),
    {
        eic.int_enabled = eic.int_enabled | (1u32 << self.num);
    }

    /// Let the line's interrupt wake the core from sleep.
    pub fn enable_interrupt_wake(&mut self, eic: &mut EIC)
        requires
            old(self).wf(),
            old(eic).wf(),
        ensures
            final(self).num == old(self).num,
            *final(eic) == (EIC {
                wakeup: old(eic).wakeup | (1u32 << old(self).num),
                ..*old(eic)
            }),
    {
        eic.wakeup = eic.wakeup | (1u32 << self.num);
    }

    /// Disarm the line's interrupt.
    pub fn disable_interrupt(&mut self, eic: &mut EIC)
        requires
            old(self).wf(),
            old(eic).wf(),
        ensures
            final(self).num == old(self).num,
            *final(eic) == (EIC {
                int_enabled: old(eic).int_enabled & !(1u32 << old(self).num),
                ..*old(eic)
            }),
    {
        eic.int_enabled = eic.int_enabled & !(1u32 << self.num);
    }

    /// Whether the line's flag is pending.
    pub fn is_interrupt(&mut self, eic: &EIC) -> (r: bool)
        requires
            old(self).wf(),
        ensures
            final(self).num == old(self).num,
            r == (eic.intflag & (1u32 << old(self).num) != 0),
    {
        eic.intflag & (1u32 << self.num) != 0
    }

    /// Acknowledge the line's pending flag.
    pub fn clear_interrupt(&mut self, eic: &mut EIC)
        requires
            old(self).wf(),
            old(eic).wf(),
        ensures
            final(self).num == old(self).num,
            *final(eic) == (EIC {
                intflag: old(eic).intflag & !(1u32 << old(self).num),
                ..*old(eic)
            }),
    {
        eic.intflag = eic.intflag & !(1u32 << self.num);
    }

    /// Program what the line is sensitive to: its three-bit sense field
    /// sits at the line's group in one of the two configuration registers.
    pub fn sense(&mut self, eic: &mut EIC, sense: Sense)
        requires
            old(self).wf(),
            old(eic).wf(),
        ensures
            final(self).num == old(self).num,
            final(eic).wf(),
            final(eic).config@ == old(eic).config@.update(
                config_offset(old(self).num),
                (old(eic).config@[config_offset(old(self).num)] & !(0x07u32 << config_shift(
                    old(self).num,
                ))) | (sense.spec_code() << config_shift(old(self).num)),
            ),
            final(eic).evctrl == old(eic).evctrl,
            final(eic).int_enabled == old(eic).int_enabled,
            final(eic).wakeup == old(eic).wakeup,
            final(eic).intflag == old(eic).intflag,
    {
        // Which of the two configuration registers this line's group is in.
        let num = self.num;
        let offset_bits: u8 = (num >> 3) & 0x01;
        proof {
            assert((num >> 3) & 0x01 < 2) by (bit_vector);
        }
        let offset: usize = offset_bits as usize;

        // Where the group's four bits start inside it.
        let shift: u32 = ((num & 0x07) as u32) * 4;
        proof {
            assert(((num & 0x07) as u32) * 4 <= 28) by (bit_vector);
        }

        let code = sense.code();
        eic.config[offset] = (eic.config[offset] & !(0x07u32 << shift)) | (code << shift);
    }

    /// Switch the line's majority filter on or off: the filter bit tops its
    /// group in the configuration register.
    pub fn filter(&mut self, eic: &mut EIC, filter: bool)
        requires
            old(self).wf(),
            old(eic).wf(),
        ensures
            final(self).num == old(self).num,
            final(eic).wf(),
            final(eic).config@ == old(eic).config@.update(
                config_offset(old(self).num),
                (old(eic).config@[config_offset(old(self).num)] & !(0x08u32 << config_shift(
                    old(self).num,
                ))) | ((if filter {
                    0x08u32
                } else {
                    0u32
                }) << config_shift(old(self).num)),
            ),
            final(eic).evctrl == old(eic).evctrl,
            final(eic).int_enabled == old(eic).int_enabled,
            final(eic).wakeup == old(eic).wakeup,
            final(eic).intflag == old(eic).intflag,
    {
        let num = self.num;
        let offset_bits: u8 = (num >> 3) & 0x01;
        proof {
            assert((num >> 3) & 0x01 < 2) by (bit_vector);
        }
        let offset: usize = offset_bits as usize;

        let shift: u32 = ((num & 0x07) as u32) * 4;
        proof {
            assert(((num & 0x07) as u32) * 4 <= 28) by (bit_vector);
        }

        let bit: u32 = if filter {
            0x08u32
        } else {
            0u32
        };
        eic.config[offset] = (eic.config[offset] & !(0x08u32 << shift)) | (bit << shift);
    }
}

} // verus!
