//! A timer/counter instance used as an event counter: each input event on
//! the event crossbar increments the count, wrapping at a configured
//! maximum, with an optional overflow interrupt or event.

use vstd::prelude::*;

use crate::pm::PM;
use crate::tc::{
    Count16, Count16Regs, CTRLA_ENABLE, CTRLA_RUNSTDBY, CTRLA_WAVEGEN_MASK, CTRLA_WAVEGEN_MFRQ,
    EVCTRL_EVACT_COUNT, EVCTRL_EVACT_MASK, EVCTRL_OVFEO, EVCTRL_TCEI, INT_OVF,
};

verus! {

/// An event counter over one timer/counter instance.
pub struct EventCounter<TC> {
    pub tc: TC,
}

impl<TC: Count16> EventCounter<TC> {
    /// The owned instance's register state.
    pub open spec fn regs(self) -> Count16Regs {
        self.tc.spec_regs()
    }

    /// Configure `tc` as an event counter wrapping at `max`: open the
    /// instance's bus clock (its bit in the peripheral clock mask is
    /// `apbc_bit`), count input events, and wrap at `max` using
    /// match-frequency mode with channel 0 as top.
    pub fn new(tc: TC, max: u16, pm: &mut PM, apbc_bit: u32) -> (ec: EventCounter<TC>)
        ensures
            ec.regs().evctrl == ((tc.spec_regs().evctrl | EVCTRL_TCEI) & !EVCTRL_EVACT_MASK)
                | EVCTRL_EVACT_COUNT,
            ec.regs().cc0 == max,
            ec.regs().ctrla == (((tc.spec_regs().ctrla | CTRLA_RUNSTDBY) & !CTRLA_WAVEGEN_MASK)
                | CTRLA_WAVEGEN_MFRQ) | CTRLA_ENABLE,
            ec.regs().ctrlb == tc.spec_regs().ctrlb,
            ec.regs().int_enabled == tc.spec_regs().int_enabled,
            ec.regs().intflag == tc.spec_regs().intflag,
            ec.regs().count == tc.spec_regs().count,
            final(pm).apbcmask == old(pm).apbcmask | apbc_bit,
            final(pm).ahbmask == old(pm).ahbmask,
            final(pm).apbamask == old(pm).apbamask,
            final(pm).apbbmask == old(pm).apbbmask,
            final(pm).rcause == old(pm).rcause,
    {
        pm.apbcmask = pm.apbcmask | apbc_bit;

        let mut tc = tc;
        let counter = tc.count16_mut();
        counter.evctrl = ((counter.evctrl | EVCTRL_TCEI) & !EVCTRL_EVACT_MASK)
            | EVCTRL_EVACT_COUNT;

        let counter = tc.count16_mut();
        counter.cc0 = max;

        let counter = tc.count16_mut();
        counter.ctrla = (((counter.ctrla | CTRLA_RUNSTDBY) & !CTRLA_WAVEGEN_MASK)
            | CTRLA_WAVEGEN_MFRQ) | CTRLA_ENABLE;

        EventCounter { tc }
    }

    /// Arm the overflow interrupt.
    pub fn enable_overflow_interrupt(&mut self)
        ensures
            final(self).regs() == (Count16Regs {
                int_enabled: old(self).regs().int_enabled | INT_OVF,
                ..old(self).regs()
            }),
    {
        let regs = self.tc.count16_mut();
        regs.int_enabled = regs.int_enabled | INT_OVF;
    }

    /// Disarm the overflow interrupt.
    pub fn diable_overflow_interrupt(&mut self)
        ensures
            final(self).regs() == (Count16Regs {
                int_enabled: old(self).regs().int_enabled & !INT_OVF,
                ..old(self).regs()
            }),
    {
        let regs = self.tc.count16_mut();
        regs.int_enabled = regs.int_enabled & !INT_OVF;
    }

    /// Acknowledge a pending overflow.
    pub fn clear_overflow_interrupt(&mut self)
        ensures
            final(self).regs() == (Count16Regs {
                intflag: old(self).regs().intflag & !INT_OVF,
                ..old(self).regs()
            }),
    {
        let regs = self.tc.count16_mut();
        regs.intflag = regs.intflag & !INT_OVF;
    }

    /// Emit an event on overflow.
    pub fn enable_overflow_event(&mut self)
        ensures
            final(self).regs() == (Count16Regs {
                evctrl: old(self).regs().evctrl | EVCTRL_OVFEO,
                ..old(self).regs()
            }),
    {
        let regs = self.tc.count16_mut();
        regs.evctrl = regs.evctrl | EVCTRL_OVFEO;
    }

    /// The current count.
    pub fn count(&self) -> (r: u16)
        ensures
            r == self.regs().count,
    {
        self.tc.count16().count
    }

    /// Reset the count to zero.
    pub fn clear(&mut self)
        ensures
            final(self).regs() == (Count16Regs { count: 0, ..old(self).regs() }),
    {
        let regs = self.tc.count16_mut();
        regs.count = 0;
    }
}

} // verus!
