//! The real-time counter in 32-bit count mode, used as a periodic compare
//! interrupt whose match clears the count.

use vstd::prelude::*;

use crate::pm::PM;

verus! {

/// Control register: enable.
pub const CTRL_ENABLE: u16 = 1u16 << 1;

/// Control register: clear the count on a compare match.
pub const CTRL_MATCHCLR: u16 = 1u16 << 7;

/// Control register: the divide-by-1024 prescaler selection in its field at
/// bits 8-11.
pub const CTRL_PRESCALER_DIV1024: u16 = 10u16 << 8;

/// Interrupt bit: compare channel 0 match.
pub const INT_CMP0: u8 = 1u8 << 0;

/// The counter's registers in 32-bit count mode, as effective values.
pub struct RtcRegs {
    /// Control: enable, mode, match-clear behaviour, prescaler.
    pub ctrl: u16,
    /// The running count.
    pub count: u32,
    /// Compare channel 0.
    pub comp0: u32,
    /// Armed interrupt sources.
    pub int_enabled: u8,
    /// Pending interrupt flags; acknowledging clears them.
    pub intflag: u8,
}

impl RtcRegs {
    /// A counter with every register at its reset value.
    pub fn reset() -> (r: RtcRegs)
        ensures
            r.ctrl == 0,
            r.count == 0,
            r.comp0 == 0,
            r.int_enabled == 0,
            r.intflag == 0,
    {
        RtcRegs { ctrl: 0, count: 0, comp0: 0, int_enabled: 0, intflag: 0 }
    }
}

/// A periodic tick from the real-time counter.
pub struct RTC {
    pub rtc: RtcRegs,
}

/// The register state `init` leaves behind: freshly reset, counting in
/// 32-bit mode at the 1024-divided clock, clearing on a match against
/// `count` with the compare interrupt armed, enabled.
pub open spec fn configured_regs(count: u32) -> RtcRegs {
    RtcRegs {
        ctrl: (CTRL_MATCHCLR | CTRL_PRESCALER_DIV1024) | CTRL_ENABLE,
        count: 0,
        comp0: count,
        int_enabled: INT_CMP0,
        intflag: 0,
    }
}

impl RTC {
    /// A tick roughly every five minutes on the 32 kHz clock.
    pub fn five_minutes(pm: &mut PM, clock_hz: u32, rtc: RtcRegs) -> (r: RTC)
        requires
            clock_hz == 32_000,
        ensures
            r.rtc == configured_regs(9_600),
            final(pm).apbamask == old(pm).apbamask | crate::pm::APBAMASK_RTC,
            final(pm).ahbmask == old(pm).ahbmask,
            final(pm).apbbmask == old(pm).apbbmask,
            final(pm).apbcmask == old(pm).apbcmask,
            final(pm).rcause == old(pm).rcause,
    {
        Self::init(pm, clock_hz, rtc, 9_600)
    }

    /// A tick roughly every ten seconds on the 32 kHz clock.
    pub fn ten_seconds(pm: &mut PM, clock_hz: u32, rtc: RtcRegs) -> (r: RTC)
        requires
            clock_hz == 32_000,
        ensures
            r.rtc == configured_regs(312),
            final(pm).apbamask == old(pm).apbamask | crate::pm::APBAMASK_RTC,
            final(pm).ahbmask == old(pm).ahbmask,
            final(pm).apbbmask == old(pm).apbbmask,
            final(pm).apbcmask == old(pm).apbcmask,
            final(pm).rcause == old(pm).rcause,
    {
        Self::init(pm, clock_hz, rtc, 312)
    }

    /// Open the counter's bus clock, reset it, and configure a periodic
    /// compare-match tick every `count` prescaled cycles. The counter only
    /// runs correctly from the 32 kHz clock, so any other rate is ruled out
    /// by precondition.
    fn init(pm: &mut PM, clock_hz: u32, rtc: RtcRegs, count: u32) -> (r: RTC)
        requires
            clock_hz == 32_000,
        ensures
            r.rtc == configured_regs(count),
            final(pm).apbamask == old(pm).apbamask | crate::pm::APBAMASK_RTC,
            final(pm).ahbmask == old(pm).ahbmask,
            final(pm).apbbmask == old(pm).apbbmask,
            final(pm).apbcmask == old(pm).apbcmask,
            final(pm).rcause == old(pm).rcause,
    {
        pm.apbamask = pm.apbamask | crate::pm::APBAMASK_RTC;

        // Disable, then reset the whole instance.
        let mut mode = rtc;
        mode.ctrl = mode.ctrl & !CTRL_ENABLE;
        mode = RtcRegs::reset();

        // Clear on match, 32-bit count mode, prescale the clock by 1024.
        mode.ctrl = CTRL_MATCHCLR | CTRL_PRESCALER_DIV1024;

        mode.comp0 = count;

        // Freshly reset, so the armed set becomes exactly the compare match.
        mode.int_enabled = INT_CMP0;

        mode.ctrl = mode.ctrl | CTRL_ENABLE;

        RTC { rtc: mode }
    }

    /// Acknowledge a pending compare match.
    pub fn clear_interrupt(&mut self)
        ensures
            final(self).rtc == (RtcRegs {
                intflag: old(self).rtc.intflag & !INT_CMP0,
                ..old(self).rtc
            }),
    {
        self.rtc.intflag = self.rtc.intflag & !INT_CMP0;
    }
}

} // verus!
