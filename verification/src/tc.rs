//! Model of one timer/counter instance in 16-bit mode: the registers the
//! drivers touch, with write-one-to-set and write-one-to-clear register pairs
//! folded into their effective state.

use vstd::prelude::*;

verus! {

/// Control A: software reset.
pub const CTRLA_SWRST: u16 = 1u16 << 0;

/// Control A: enable.
pub const CTRLA_ENABLE: u16 = 1u16 << 1;

/// Control A: waveform generation, match-frequency mode (field at bits 5-6).
pub const CTRLA_WAVEGEN_MFRQ: u16 = 1u16 << 5;

/// Control A: mask of the waveform-generation field.
pub const CTRLA_WAVEGEN_MASK: u16 = 3u16 << 5;

/// Control A: shift of the prescaler field (bits 8-10).
pub const CTRLA_PRESCALER_SHIFT: u16 = 8;

/// Control A: mask of the prescaler field.
pub const CTRLA_PRESCALER_MASK: u16 = 7u16 << 8;

/// Control A: keep running in standby.
pub const CTRLA_RUNSTDBY: u16 = 1u16 << 11;

/// Control B: count down instead of up.
pub const CTRLB_DIR: u8 = 1u8 << 0;

/// Control B: stop after one cycle.
pub const CTRLB_ONESHOT: u8 = 1u8 << 2;

/// Control B: the retrigger command (command field at bits 6-7).
pub const CTRLB_CMD_RETRIGGER: u8 = 1u8 << 6;

/// Event control: action taken on an input event, the count action.
pub const EVCTRL_EVACT_COUNT: u16 = 2;

/// Event control: action taken on an input event, the retrigger action.
pub const EVCTRL_EVACT_RETRIGGER: u16 = 1;

/// Event control: mask of the event-action field (bits 0-2).
pub const EVCTRL_EVACT_MASK: u16 = 7;

/// Event control: enable input events.
pub const EVCTRL_TCEI: u16 = 1u16 << 5;

/// Event control: emit an event on overflow.
pub const EVCTRL_OVFEO: u16 = 1u16 << 8;

/// Interrupt bit: overflow.
pub const INT_OVF: u8 = 1u8 << 0;

/// The division factors of the counter's prescaler.
#[derive(Debug, Clone, Copy, PartialEq, Eq, Structural)]
pub enum Prescaler {
    Div1,
    Div2,
    Div4,
    Div8,
    Div16,
    Div64,
    Div256,
    Div1024,
}

impl Prescaler {
    /// The encoding of this factor in the control register's field.
    pub open spec fn spec_code(self) -> u16 {
        match self {
            Prescaler::Div1 => 0,
            Prescaler::Div2 => 1,
            Prescaler::Div4 => 2,
            Prescaler::Div8 => 3,
            Prescaler::Div16 => 4,
            Prescaler::Div64 => 5,
            Prescaler::Div256 => 6,
            Prescaler::Div1024 => 7,
        }
    }

    pub fn code(self) -> (r: u16)
        ensures
            r == self.spec_code(),
    {
        match self {
            Prescaler::Div1 => 0,
            Prescaler::Div2 => 1,
            Prescaler::Div4 => 2,
            Prescaler::Div8 => 3,
            Prescaler::Div16 => 4,
            Prescaler::Div64 => 5,
            Prescaler::Div256 => 6,
            Prescaler::Div1024 => 7,
        }
    }
}

/// The counter's registers in 16-bit mode, as effective values: the
/// set/clear register pairs for interrupts appear as the armed set, and the
/// pending flags clear when acknowledged.
pub struct Count16Regs {
    /// Control A: enable, prescaler, waveform mode, standby behaviour.
    pub ctrla: u16,
    /// Control B bits accumulated through the set register: direction,
    /// one-shot, last command.
    pub ctrlb: u8,
    /// Event control: input action and output events.
    pub evctrl: u16,
    /// Armed interrupt sources.
    pub int_enabled: u8,
    /// Pending interrupt flags; acknowledging clears them.
    pub intflag: u8,
    /// The counter value.
    pub count: u16,
    /// Compare/capture channel 0, the top value in match-frequency mode.
    pub cc0: u16,
}

/// Access to a timer/counter instance's registers in 16-bit mode. The
/// hardware exposes several instances with identical register blocks; a
/// driver is generic over which instance it owns.
pub trait Count16 {
    /// The instance's register state.
    spec fn spec_regs(&self) -> Count16Regs;

    fn count16(&self) -> (regs: &Count16Regs)
        ensures
            *regs == self.spec_regs(),
    ;

    fn count16_mut(&mut self) -> (regs: &mut Count16Regs)
        ensures
            *regs == old(self).spec_regs(),
            final(self).spec_regs() == *final(regs),
    ;
}

impl Count16 for Count16Regs {
    open spec fn spec_regs(&self) -> Count16Regs {
        *self
    }

    fn count16(&self) -> (regs: &Count16Regs) {
        self
    }

    fn count16_mut(&mut self) -> (regs: &mut Count16Regs) {
        self
    }
}

impl Count16Regs {
    /// A counter with every register at its reset value.
    pub fn reset() -> (r: Count16Regs)
        ensures
            r.ctrla == 0,
            r.ctrlb == 0,
            r.evctrl == 0,
            r.int_enabled == 0,
            r.intflag == 0,
            r.count == 0,
            r.cc0 == 0,
    {
        Count16Regs { ctrla: 0, ctrlb: 0, evctrl: 0, int_enabled: 0, intflag: 0, count: 0, cc0: 0 }
    }
}

} // verus!
