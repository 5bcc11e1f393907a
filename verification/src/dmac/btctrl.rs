//! The 16-bit control word of a transfer descriptor, with its hardware-fixed
//! bit layout: bit 0 valid; bits 1-2 event-output action; bits 3-4 block
//! action; bits 8-9 beat size; bit 10 source increment; bit 11 destination
//! increment; bit 12 step selector; bits 13-15 step-multiplier exponent.

use vstd::prelude::*;

verus! {

/// Step multiplier applied to the stepped side of a transfer, as a power of
/// two from x1 to x128.
#[derive(Debug, Clone, Copy, PartialEq, Eq, Structural)]
pub enum Stepsize {
    X1,
    X2,
    X4,
    X8,
    X16,
    X32,
    X64,
    X128,
}

impl Stepsize {
    /// The exponent encoding of this multiplier in the control word.
    pub open spec fn spec_bits(self) -> u8 {
        match self {
            Stepsize::X1 => 0,
            Stepsize::X2 => 1,
            Stepsize::X4 => 2,
            Stepsize::X8 => 3,
            Stepsize::X16 => 4,
            Stepsize::X32 => 5,
            Stepsize::X64 => 6,
            Stepsize::X128 => 7,
        }
    }

    pub fn to_bits(self) -> (r: u8)
        ensures
            r == self.spec_bits(),
    {
        match self {
            Stepsize::X1 => 0,
            Stepsize::X2 => 1,
            Stepsize::X4 => 2,
            Stepsize::X8 => 3,
            Stepsize::X16 => 4,
            Stepsize::X32 => 5,
            Stepsize::X64 => 6,
            Stepsize::X128 => 7,
        }
    }

    /// Decode an exponent value; every three-bit value is a valid multiplier.
    pub fn from_bits(val: u8) -> (r: Stepsize)
        requires
            val < 8,
        ensures
            r.spec_bits() == val,
    {
        match val {
            0 => Stepsize::X1,
            1 => Stepsize::X2,
            2 => Stepsize::X4,
            3 => Stepsize::X8,
            4 => Stepsize::X16,
            5 => Stepsize::X32,
            6 => Stepsize::X64,
            _ => Stepsize::X128,
        }
    }
}

/// Which side of the transfer the step multiplier applies to.
#[derive(Debug, Clone, Copy, PartialEq, Eq, Structural)]
pub enum Stepsel {
    StepDst,
    StepSrc,
}

impl Stepsel {
    pub open spec fn spec_bits(self) -> u8 {
        match self {
            Stepsel::StepDst => 0,
            Stepsel::StepSrc => 1,
        }
    }

    pub fn to_bits(self) -> (r: u8)
        ensures
            r == self.spec_bits(),
    {
        match self {
            Stepsel::StepDst => 0,
            Stepsel::StepSrc => 1,
        }
    }

    /// Decode the step-selector bit: zero selects the destination, anything
    /// else the source.
    pub fn from_bits(val: u8) -> (r: Stepsel)
        ensures
            r == (if val == 0 { Stepsel::StepDst } else { Stepsel::StepSrc }),
    {
        if val == 0 {
            Stepsel::StepDst
        } else {
            Stepsel::StepSrc
        }
    }
}

/// Width of one beat, the hardware's indivisible transfer element.
#[derive(Debug, Clone, Copy, PartialEq, Eq, Structural)]
pub enum Beatsize {
    Byte,
    HalfWord,
    Word,
}

impl Beatsize {
    pub open spec fn spec_bits(self) -> u8 {
        match self {
            Beatsize::Byte => 0,
            Beatsize::HalfWord => 1,
            Beatsize::Word => 2,
        }
    }

    /// The number of bytes moved by one beat of this width.
    pub open spec fn spec_width(self) -> u32 {
        match self {
            Beatsize::Byte => 1,
            Beatsize::HalfWord => 2,
            Beatsize::Word => 4,
        }
    }

    pub fn to_bits(self) -> (r: u8)
        ensures
            r == self.spec_bits(),
    {
        match self {
            Beatsize::Byte => 0,
            Beatsize::HalfWord => 1,
            Beatsize::Word => 2,
        }
    }

    /// Decode a beat-size field; the value 3 is reserved by hardware.
    pub fn from_bits(val: u8) -> (r: Beatsize)
        requires
            val < 3,
        ensures
            r.spec_bits() == val,
    {
        match val {
            0 => Beatsize::Byte,
            1 => Beatsize::HalfWord,
            _ => Beatsize::Word,
        }
    }
}

/// What the channel does when this descriptor's block completes.
#[derive(Debug, Clone, Copy, PartialEq, Eq, Structural)]
pub enum BlockAction {
    NoAct,
    Interrupt,
    ChannelSuspend,
    ChannelSuspendInterrupt,
}

impl BlockAction {
    pub open spec fn spec_bits(self) -> u8 {
        match self {
            BlockAction::NoAct => 0,
            BlockAction::Interrupt => 1,
            BlockAction::ChannelSuspend => 2,
            BlockAction::ChannelSuspendInterrupt => 3,
        }
    }

    pub fn to_bits(self) -> (r: u8)
        ensures
            r == self.spec_bits(),
    {
        match self {
            BlockAction::NoAct => 0,
            BlockAction::Interrupt => 1,
            BlockAction::ChannelSuspend => 2,
            BlockAction::ChannelSuspendInterrupt => 3,
        }
    }

    pub fn from_bits(val: u8) -> (r: BlockAction)
        requires
            val < 4,
        ensures
            r.spec_bits() == val,
    {
        match val {
            0 => BlockAction::NoAct,
            1 => BlockAction::Interrupt,
            2 => BlockAction::ChannelSuspend,
            _ => BlockAction::ChannelSuspendInterrupt,
        }
    }
}

/// When the descriptor emits an event on the event crossbar.
#[derive(Debug, Clone, Copy, PartialEq, Eq, Structural)]
pub enum EventOutputAction {
    Disable,
    Block,
    Beat,
}

impl EventOutputAction {
    pub open spec fn spec_bits(self) -> u8 {
        match self {
            EventOutputAction::Disable => 0,
            EventOutputAction::Block => 1,
            EventOutputAction::Beat => 3,
        }
    }

    pub fn to_bits(self) -> (r: u8)
        ensures
            r == self.spec_bits(),
    {
        match self {
            EventOutputAction::Disable => 0,
            EventOutputAction::Block => 1,
            EventOutputAction::Beat => 3,
        }
    }

    /// Decode an event-output field; the value 2 is reserved by hardware.
    pub fn from_bits(val: u8) -> (r: EventOutputAction)
        requires
            val == 0 || val == 1 || val == 3,
        ensures
            r.spec_bits() == val,
    {
        match val {
            0 => EventOutputAction::Disable,
            1 => EventOutputAction::Block,
            _ => EventOutputAction::Beat,
        }
    }
}

/// The packed control word itself.
#[derive(Debug, Clone, Copy, PartialEq, Eq, Structural, Default)]
pub struct Btctrl(pub u16);

impl Btctrl {
    /// Step-multiplier exponent, bits 13-15.
    pub fn stepsize(&self) -> (r: Stepsize)
        ensures
            r.spec_bits() == (self.0 >> 13) & 7,
    {
        let w = self.0;
        let bits: u8 = ((w >> 13) & 7) as u8;
        assert(bits == (w >> 13) & 7 && bits < 8) by (bit_vector)
            requires
                bits == ((w >> 13) & 7) as u8,
        ;
        Stepsize::from_bits(bits)
    }

    pub fn set_stepsize(&mut self, stepsize: Stepsize)
        ensures
            final(self).0 == (old(self).0 & !0xe000) | ((stepsize.spec_bits() as u16) << 13),
    {
        self.0 = (self.0 & !0xe000) | ((stepsize.to_bits() as u16) << 13);
    }

    /// Step selector, bit 12.
    pub fn stepsel(&self) -> (r: Stepsel)
        ensures
            r == (if (self.0 >> 12) & 1 == 0 { Stepsel::StepDst } else { Stepsel::StepSrc }),
    {
        let w = self.0;
        let val: u8 = ((w >> 12) & 1) as u8;
        assert(val == (w >> 12) & 1) by (bit_vector)
            requires
                val == ((w >> 12) & 1) as u8,
        ;
        Stepsel::from_bits(val)
    }

    pub fn set_stepsel(&mut self, stepsel: Stepsel)
        ensures
            final(self).0 == (old(self).0 & !0x1000) | ((stepsel.spec_bits() as u16) << 12),
    {
        self.0 = (self.0 & !0x1000) | ((stepsel.to_bits() as u16) << 12);
    }

    /// Destination auto-increment, bit 11.
    pub fn dstinc(&self) -> (r: bool)
        ensures
            r == ((self.0 >> 11) & 1 == 1),
    {
        (self.0 >> 11) & 1 == 1
    }

    pub fn set_dstinc(&mut self, dstinc: bool)
        ensures
            final(self).0 == (old(self).0 & !0x0800) | (if dstinc { 0x0800u16 } else { 0 }),
    {
        self.0 = (self.0 & !0x0800) | (if dstinc { 0x0800 } else { 0 });
    }

    /// Source auto-increment, bit 10.
    pub fn srcinc(&self) -> (r: bool)
        ensures
            r == ((self.0 >> 10) & 1 == 1),
    {
        (self.0 >> 10) & 1 == 1
    }

    pub fn set_srcinc(&mut self, srcinc: bool)
        ensures
            final(self).0 == (old(self).0 & !0x0400) | (if srcinc { 0x0400u16 } else { 0 }),
    {
        self.0 = (self.0 & !0x0400) | (if srcinc { 0x0400 } else { 0 });
    }

    /// Beat size, bits 8-9; requires a non-reserved encoding.
    pub fn beatsize(&self) -> (r: Beatsize)
        requires
            (self.0 >> 8) & 3 < 3,
        ensures
            r.spec_bits() == (self.0 >> 8) & 3,
    {
        let w = self.0;
        let bits: u8 = ((w >> 8) & 3) as u8;
        assert(bits == (w >> 8) & 3) by (bit_vector)
            requires
                bits == ((w >> 8) & 3) as u8,
        ;
        Beatsize::from_bits(bits)
    }

    pub fn set_beatsize(&mut self, beatsize: Beatsize)
        ensures
            final(self).0 == (old(self).0 & !0x0300) | ((beatsize.spec_bits() as u16) << 8),
    {
        self.0 = (self.0 & !0x0300) | ((beatsize.to_bits() as u16) << 8);
    }

    /// Block-completion action, bits 3-4.
    pub fn blockact(&self) -> (r: BlockAction)
        ensures
            r.spec_bits() == (self.0 >> 3) & 3,
    {
        let w = self.0;
        let bits: u8 = ((w >> 3) & 3) as u8;
        assert(bits == (w >> 3) & 3 && bits < 4) by (bit_vector)
            requires
                bits == ((w >> 3) & 3) as u8,
        ;
        BlockAction::from_bits(bits)
    }

    pub fn set_blockact(&mut self, blockact: BlockAction)
        ensures
            final(self).0 == (old(self).0 & !0x0018) | ((blockact.spec_bits() as u16) << 3),
    {
        self.0 = (self.0 & !0x0018) | ((blockact.to_bits() as u16) << 3);
    }

    /// Event-output action, bits 1-2; requires a non-reserved encoding.
    pub fn evosel(&self) -> (r: EventOutputAction)
        requires
            (self.0 >> 1) & 3 != 2,
        ensures
            r.spec_bits() == (self.0 >> 1) & 3,
    {
        let w = self.0;
        let bits: u8 = ((w >> 1) & 3) as u8;
        assert(bits == (w >> 1) & 3 && bits < 4) by (bit_vector)
            requires
                bits == ((w >> 1) & 3) as u8,
        ;
        EventOutputAction::from_bits(bits)
    }

    pub fn set_evosel(&mut self, evosel: EventOutputAction)
        ensures
            final(self).0 == (old(self).0 & !0x0006) | ((evosel.spec_bits() as u16) << 1),
    {
        self.0 = (self.0 & !0x0006) | ((evosel.to_bits() as u16) << 1);
    }

    /// Valid flag, bit 0: gates hardware execution of the descriptor.
    pub fn valid(&self) -> (r: bool)
        ensures
            r == (self.0 & 1 == 1),
    {
        self.0 & 1 == 1
    }

    pub fn set_valid(&mut self, valid: bool)
        ensures
            final(self).0 == (old(self).0 & !0x0001) | (if valid { 1u16 } else { 0 }),
    {
        self.0 = (self.0 & !0x0001) | (if valid { 1 } else { 0 });
    }
}

} // verus!
