//! A timer/counter instance used as a retriggerable timeout: it counts down
//! from a start value, an input event or a software command restarts it from
//! the top, and reaching zero raises the overflow flag.

use vstd::prelude::*;

use crate::pm::PM;
use crate::tc::{
    Count16, Count16Regs, Prescaler, CTRLA_ENABLE, CTRLA_PRESCALER_MASK, CTRLA_PRESCALER_SHIFT,
    CTRLA_RUNSTDBY, CTRLA_WAVEGEN_MASK, CTRLA_WAVEGEN_MFRQ, CTRLB_CMD_RETRIGGER, CTRLB_DIR,
    CTRLB_ONESHOT, EVCTRL_EVACT_MASK, EVCTRL_EVACT_RETRIGGER, EVCTRL_OVFEO, EVCTRL_TCEI, INT_OVF,
};

verus! {

/// The division factor between the instance's clock and its count rate.
pub type Divider = Prescaler;

/// A retriggerable timeout over one timer/counter instance.
pub struct Timeout<TC> {
    pub tc: TC,
}

impl<TC: Count16> Timeout<TC> {
    /// The owned instance's register state.
    pub open spec fn regs(self) -> Count16Regs {
        self.tc.spec_regs()
    }

    /// Configure `tc` as a one-shot countdown from `start` at the rate given
    /// by `divider`, restarted by input events, with its bus clock (bit
    /// `apbc_bit` of the peripheral clock mask) opened. The counter is
    /// preloaded with `start` so the first retrigger counts a full period.
    pub fn new(tc: TC, divider: Divider, start: u16, pm: &mut PM, apbc_bit: u32) -> (t: Timeout<
        TC,
    >)
        ensures
            t.regs().evctrl == ((tc.spec_regs().evctrl | EVCTRL_TCEI) & !EVCTRL_EVACT_MASK)
                | EVCTRL_EVACT_RETRIGGER,
            t.regs().cc0 == start,
            t.regs().count == start,
            t.regs().ctrlb == tc.spec_regs().ctrlb | (CTRLB_DIR | CTRLB_ONESHOT),
            t.regs().ctrla == ((((tc.spec_regs().ctrla | CTRLA_RUNSTDBY) & !CTRLA_PRESCALER_MASK)
                | (divider.spec_code() << CTRLA_PRESCALER_SHIFT)) & !CTRLA_WAVEGEN_MASK
                | CTRLA_WAVEGEN_MFRQ) | CTRLA_ENABLE,
            t.regs().int_enabled == tc.spec_regs().int_enabled,
            t.regs().intflag == tc.spec_regs().intflag,
            final(pm).apbcmask == old(pm).apbcmask | apbc_bit,
            final(pm).ahbmask == old(pm).ahbmask,
            final(pm).apbamask == old(pm).apbamask,
            final(pm).apbbmask == old(pm).apbbmask,
            final(pm).rcause == old(pm).rcause,
    {
        pm.apbcmask = pm.apbcmask | apbc_bit;

        let mut tc = tc;
        let counter = tc.count16_mut();
        counter.evctrl = ((counter.evctrl | EVCTRL_TCEI) & !EVCTRL_EVACT_MASK)
            | EVCTRL_EVACT_RETRIGGER;

        let counter = tc.count16_mut();
        counter.cc0 = start;

        // Ensure the first retrigger starts from the top value.
        let counter = tc.count16_mut();
        counter.count = start;

        // Count down from top to zero, once, without looping back.
        let counter = tc.count16_mut();
        counter.ctrlb = counter.ctrlb | (CTRLB_DIR | CTRLB_ONESHOT);

        let code = divider.code();
        let counter = tc.count16_mut();
        counter.ctrla = ((((counter.ctrla | CTRLA_RUNSTDBY) & !CTRLA_PRESCALER_MASK) | (code
            << CTRLA_PRESCALER_SHIFT)) & !CTRLA_WAVEGEN_MASK | CTRLA_WAVEGEN_MFRQ) | CTRLA_ENABLE;

        Timeout { tc }
    }

    /// Arm the overflow interrupt.
    pub fn enable_overflow_interrupt(&mut self)
        ensures
            final(self).regs() == (Count16Regs {
                int_enabled: old(self).regs().int_enabled | INT_OVF,
                ..old(self).regs()
            }),
    {
        let regs = self.tc.count16_mut();
        regs.int_enabled = regs.int_enabled | INT_OVF;
    }

    /// Disarm the overflow interrupt.
    pub fn diable_overflow_interrupt(&mut self)
        ensures
            final(self).regs() == (Count16Regs {
                int_enabled: old(self).regs().int_enabled & !INT_OVF,
                ..old(self).regs()
            }),
    {
        let regs = self.tc.count16_mut();
        regs.int_enabled = regs.int_enabled & !INT_OVF;
    }

    /// Acknowledge a pending overflow.
    pub fn clear_overflow_interrupt(&mut self)
        ensures
            final(self).regs() == (Count16Regs {
                intflag: old(self).regs().intflag & !INT_OVF,
                ..old(self).regs()
            }),
    {
        let regs = self.tc.count16_mut();
        regs.intflag = regs.intflag & !INT_OVF;
    }

    /// Emit an event on overflow.
    pub fn enable_overflow_event(&mut self)
        ensures
            final(self).regs() == (Count16Regs {
                evctrl: old(self).regs().evctrl | EVCTRL_OVFEO,
                ..old(self).regs()
            }),
    {
        let regs = self.tc.count16_mut();
        regs.evctrl = regs.evctrl | EVCTRL_OVFEO;
    }

    /// Restart the countdown from the top by software command.
    pub fn retrigger(&mut self)
        ensures
            final(self).regs() == (Count16Regs {
                ctrlb: old(self).regs().ctrlb | CTRLB_CMD_RETRIGGER,
                ..old(self).regs()
            }),
    {
        let regs = self.tc.count16_mut();
        regs.ctrlb = regs.ctrlb | CTRLB_CMD_RETRIGGER;
    }

    /// The current count.
    pub fn count(&self) -> (r: u16)
        ensures
            r == self.regs().count,
    {
        self.tc.count16().count
    }

    /// Reset the count to zero.
    pub fn clear(&mut self)
        ensures
            final(self).regs() == (Count16Regs { count: 0, ..old(self).regs() }),
    {
        let regs = self.tc.count16_mut();
        regs.count = 0;
    }
}

} // verus!
