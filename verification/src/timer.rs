//! A periodic hardware timer over a timer/counter instance in 16-bit mode,
//! and the arithmetic that picks a prescaler and top value for a requested
//! period.

use vstd::prelude::*;

use crate::pm::PM;
use crate::tc::{
    Count16, Count16Regs, CTRLA_ENABLE, CTRLA_PRESCALER_MASK, CTRLA_PRESCALER_SHIFT,
    CTRLA_RUNSTDBY, CTRLA_WAVEGEN_MASK, CTRLA_WAVEGEN_MFRQ, EVCTRL_OVFEO, INT_OVF,
};
use crate::WouldBlock;

verus! {

/// The requested period in ticks of the source clock: the source frequency
/// divided by the timeout frequency, which is clamped to at least one hertz.
pub open spec fn spec_ticks(timeout_hz: u32, src_freq: u32) -> int {
    src_freq as int / (if timeout_hz >= 1 {
        timeout_hz as int
    } else {
        1
    })
}

/// The divider chosen for a tick count: the smallest power of two that
/// brings the cycle count under sixteen bits, rounded up to the next
/// supported value where the hardware has gaps (32 becomes 64, 128 becomes
/// 256, 512 becomes 1024), and capped at 1024.
pub open spec fn spec_divider_of(ticks: int) -> int {
    let k = ticks / 65536 + 1;
    if k <= 1 {
        1
    } else if k <= 2 {
        2
    } else if k <= 4 {
        4
    } else if k <= 8 {
        8
    } else if k <= 16 {
        16
    } else if k <= 64 {
        64
    } else if k <= 256 {
        256
    } else {
        1024
    }
}

/// The top value programmed for a requested period: the tick count divided
/// by the chosen divider.
pub open spec fn spec_cycles(timeout_hz: u32, src_freq: u32) -> int {
    spec_ticks(timeout_hz, src_freq) / spec_divider_of(spec_ticks(timeout_hz, src_freq))
}

/// The prescaler-field encoding of a supported divider.
pub open spec fn spec_prescaler_code(divider: int) -> u16 {
    if divider == 1 {
        0
    } else if divider == 2 {
        1
    } else if divider == 4 {
        2
    } else if divider == 8 {
        3
    } else if divider == 16 {
        4
    } else if divider == 64 {
        5
    } else if divider == 256 {
        6
    } else {
        7
    }
}

/// Divider and top value realizing a requested period on a source clock.
#[derive(Debug, Clone, Copy, PartialEq, Eq, Structural)]
pub struct TimerParams {
    pub divider: u16,
    pub cycles: u32,
}

impl TimerParams {
    /// The dividers the hardware supports.
    pub open spec fn valid_divider(self) -> bool {
        self.divider == 1 || self.divider == 2 || self.divider == 4 || self.divider == 8
            || self.divider == 16 || self.divider == 64 || self.divider == 256 || self.divider
            == 1024
    }

    /// Compute divider and cycle count for a `timeout_hz` period on a
    /// `src_freq` clock. The caller rules out periods whose cycle count
    /// cannot fit the sixteen-bit counter.
    pub fn new(timeout_hz: u32, src_freq: u32) -> (params: TimerParams)
        requires
            spec_cycles(timeout_hz, src_freq) <= 0xffff,
        ensures
            params.divider == spec_divider_of(spec_ticks(timeout_hz, src_freq)),
            params.cycles == spec_cycles(timeout_hz, src_freq),
            params.valid_divider(),
    {
        let timeout: u32 = if timeout_hz >= 1 {
            timeout_hz
        } else {
            1
        };
        let ticks: u32 = src_freq / timeout;

        let shifted: u32 = ticks >> 16;
        proof {
            assert(shifted == ticks / 65536 && shifted <= 0xffff) by (bit_vector)
                requires
                    shifted == ticks >> 16,
            ;
        }
        let k: u32 = shifted + 1;

        let divider: u16 = if k <= 1 {
            1
        } else if k <= 2 {
            2
        } else if k <= 4 {
            4
        } else if k <= 8 {
            8
        } else if k <= 16 {
            16
        } else if k <= 64 {
            64
        } else if k <= 256 {
            256
        } else {
            1024
        };

        let cycles: u32 = ticks / (divider as u32);

        TimerParams { divider, cycles }
    }

    /// As `new`, deciding at run time whether the cycle count fits the
    /// counter: `None` exactly when it does not.
    pub fn checked_new(timeout_hz: u32, src_freq: u32) -> (r: Option<TimerParams>)
        ensures
            r is Some <==> spec_cycles(timeout_hz, src_freq) <= 0xffff,
            r matches Some(params) ==> {
                &&& params.divider == spec_divider_of(spec_ticks(timeout_hz, src_freq))
                &&& params.cycles == spec_cycles(timeout_hz, src_freq)
                &&& params.valid_divider()
            },
    {
        let timeout: u32 = if timeout_hz >= 1 {
            timeout_hz
        } else {
            1
        };
        let ticks: u32 = src_freq / timeout;

        let shifted: u32 = ticks >> 16;
        proof {
            assert(shifted == ticks / 65536 && shifted <= 0xffff) by (bit_vector)
                requires
                    shifted == ticks >> 16,
            ;
        }
        let k: u32 = shifted + 1;

        let divider: u16 = if k <= 1 {
            1
        } else if k <= 2 {
            2
        } else if k <= 4 {
            4
        } else if k <= 8 {
            8
        } else if k <= 16 {
            16
        } else if k <= 64 {
            64
        } else if k <= 256 {
            256
        } else {
            1024
        };

        let cycles: u32 = ticks / (divider as u32);

        if cycles > 0xffff {
            None
        } else {
            Some(TimerParams { divider, cycles })
        }
    }
}

/// A periodic timer over one timer/counter instance, remembering its source
/// clock's frequency.
pub struct TimerCounter<TC> {
    pub freq: u32,
    pub tc: TC,
}

impl<TC: Count16> TimerCounter<TC> {
    /// The owned instance's register state.
    pub open spec fn regs(self) -> Count16Regs {
        self.tc.spec_regs()
    }

    /// Take over `tc` as a timer clocked at `freq`: open its bus clock (bit
    /// `apbc_bit` of the peripheral clock mask) and disable it until a
    /// period is started.
    pub fn new(freq: u32, tc: TC, pm: &mut PM, apbc_bit: u32) -> (t: TimerCounter<TC>)
        ensures
            t.freq == freq,
            t.regs() == (Count16Regs {
                ctrla: tc.spec_regs().ctrla & !CTRLA_ENABLE,
                ..tc.spec_regs()
            }),
            final(pm).apbcmask == old(pm).apbcmask | apbc_bit,
            final(pm).ahbmask == old(pm).ahbmask,
            final(pm).apbamask == old(pm).apbamask,
            final(pm).apbbmask == old(pm).apbbmask,
            final(pm).rcause == old(pm).rcause,
    {
        pm.apbcmask = pm.apbcmask | apbc_bit;

        let mut tc = tc;
        // Disable the timer until it is configured.
        let count = tc.count16_mut();
        count.ctrla = count.ctrla & !CTRLA_ENABLE;

        TimerCounter { freq, tc }
    }

    /// Arm the overflow interrupt. This only selects the source; the
    /// interrupt controller and handler are the caller's concern.
    pub fn enable_interrupt(&mut self)
        ensures
            final(self).freq == old(self).freq,
            final(self).regs() == (Count16Regs {
                int_enabled: old(self).regs().int_enabled | INT_OVF,
                ..old(self).regs()
            }),
    {
        let regs = self.tc.count16_mut();
        regs.int_enabled = regs.int_enabled | INT_OVF;
    }

    /// Disarm the overflow interrupt.
    pub fn disable_interrupt(&mut self)
        ensures
            final(self).freq == old(self).freq,
            final(self).regs() == (Count16Regs {
                int_enabled: old(self).regs().int_enabled & !INT_OVF,
                ..old(self).regs()
            }),
    {
        let regs = self.tc.count16_mut();
        regs.int_enabled = regs.int_enabled & !INT_OVF;
    }

    /// Acknowledge a pending overflow.
    pub fn clear_interrupt(&mut self)
        ensures
            final(self).freq == old(self).freq,
            final(self).regs() == (Count16Regs {
                intflag: old(self).regs().intflag & !INT_OVF,
                ..old(self).regs()
            }),
    {
        let regs = self.tc.count16_mut();
        regs.intflag = regs.intflag & !INT_OVF;
    }

    /// Emit an event on overflow; the rest of the event-control register is
    /// written back to its reset state.
    pub fn enable_overflow_event(&mut self)
        ensures
            final(self).freq == old(self).freq,
            final(self).regs() == (Count16Regs { evctrl: EVCTRL_OVFEO, ..old(self).regs() }),
    {
        let regs = self.tc.count16_mut();
        regs.evctrl = EVCTRL_OVFEO;
    }

    /// Start a periodic timeout of `timeout_hz`. The caller rules out
    /// periods whose cycle count cannot fit the sixteen-bit counter.
    pub fn start(&mut self, timeout_hz: u32)
        requires
            spec_cycles(timeout_hz, old(self).freq) <= 0xffff,
        ensures
            final(self).freq == old(self).freq,
            final(self).regs() == started_regs(
                spec_divider_of(spec_ticks(timeout_hz, old(self).freq)),
                spec_cycles(timeout_hz, old(self).freq) as u16,
            ),
    {
        let params = TimerParams::new(timeout_hz, self.freq);
        self.start_(params);
    }

    /// Reconfigure the counter for the computed parameters: reset it, count
    /// up periodically, set the top value, and enable it in match-frequency
    /// mode at the chosen prescaler.
    pub fn start_(&mut self, params: TimerParams)
        requires
            params.valid_divider(),
            params.cycles <= 0xffff,
        ensures
            final(self).freq == old(self).freq,
            final(self).regs() == started_regs(params.divider as int, params.cycles as u16),
    {
        let divider = params.divider;
        let cycles = params.cycles;

        // Disable the timer, then reset the whole instance before
        // reconfiguring it.
        let count = self.tc.count16_mut();
        count.ctrla = count.ctrla & !CTRLA_ENABLE;

        let count = self.tc.count16_mut();
        count.ctrla = 0;
        count.ctrlb = 0;
        count.evctrl = 0;
        count.int_enabled = 0;
        count.intflag = 0;
        count.count = 0;
        count.cc0 = 0;

        // Count up when the direction bit is zero, periodically: the reset
        // state already encodes both.

        // Set the top value for match-frequency mode.
        let count = self.tc.count16_mut();
        count.cc0 = cycles as u16;

        let code: u16 = if divider == 1 {
            0
        } else if divider == 2 {
            1
        } else if divider == 4 {
            2
        } else if divider == 8 {
            3
        } else if divider == 16 {
            4
        } else if divider == 64 {
            5
        } else if divider == 256 {
            6
        } else {
            7
        };

        let count = self.tc.count16_mut();
        count.ctrla = (((CTRLA_RUNSTDBY | (code << CTRLA_PRESCALER_SHIFT)) & !CTRLA_WAVEGEN_MASK)
            | CTRLA_WAVEGEN_MFRQ) | CTRLA_ENABLE;
    }

    /// Poll for the period's end: acknowledges and reports an overflow, or
    /// signals that none is pending yet.
    pub fn wait(&mut self) -> (r: Result<(), WouldBlock>)
        ensures
            final(self).freq == old(self).freq,
            r is Ok <==> old(self).regs().intflag & INT_OVF != 0,
            r is Ok ==> final(self).regs() == (Count16Regs {
                intflag: old(self).regs().intflag & !INT_OVF,
                ..old(self).regs()
            }),
            r is Err ==> final(self).regs() == old(self).regs(),
    {
        let count = self.tc.count16_mut();
        if count.intflag & INT_OVF != 0 {
            // Writing a one clears the flag.
            count.intflag = count.intflag & !INT_OVF;
            Ok(())
        } else {
            Err(WouldBlock)
        }
    }
}

/// The register state a started timer is left in: freshly reset, with the
/// top value set and the control register enabling match-frequency mode at
/// the chosen prescaler.
pub open spec fn started_regs(divider: int, cycles: u16) -> Count16Regs {
    Count16Regs {
        ctrla: (((CTRLA_RUNSTDBY | (spec_prescaler_code(divider) << CTRLA_PRESCALER_SHIFT))
            & !CTRLA_WAVEGEN_MASK) | CTRLA_WAVEGEN_MFRQ) | CTRLA_ENABLE,
        ctrlb: 0,
        evctrl: 0,
        int_enabled: 0,
        intflag: 0,
        count: 0,
        cc0: cycles,
    }
}

} // verus!
