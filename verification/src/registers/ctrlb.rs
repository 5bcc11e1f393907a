//! Control register B of the serial engine in client mode: smart-mode
//! enable (bit 8), group command (bit 9), automatic address acknowledge
//! (bit 10), address mode (bits 14-15), command (bits 16-17) and acknowledge
//! action (bit 18). Resets to zero.

use vstd::prelude::*;

verus! {

/// Reader of the register: a captured value with field accessors.
pub struct R {
    pub bits: u32,
}

/// Writer for the register: the value being assembled.
pub struct W {
    pub bits: u32,
}

/// Write proxy for field `SMEN`.
pub struct SMEN_W {
    pub w: W,
}

impl SMEN_W {
    /// Sets the field bit.
    pub fn set_bit(self) -> (w: W)
        ensures
            w.bits == (self.w.bits & !(0x01u32 << 8)) | (0x01u32 << 8),
    {
        W { bits: (self.w.bits & !(0x01u32 << 8)) | (0x01u32 << 8) }
    }

    /// Clears the field bit.
    pub fn clear_bit(self) -> (w: W)
        ensures
            w.bits == self.w.bits & !(0x01u32 << 8),
    {
        W { bits: self.w.bits & !(0x01u32 << 8) }
    }

    /// Writes the field bit.
    pub fn bit(self, value: bool) -> (w: W)
        ensures
            w.bits == (self.w.bits & !(0x01u32 << 8)) | ((if value {
                0x01u32
            } else {
                0u32
            }) << 8),
    {
        W {
            bits: (self.w.bits & !(0x01u32 << 8)) | ((if value {
                0x01u32
            } else {
                0u32
            }) << 8),
        }
    }
}

/// Write proxy for field `GCMD`.
pub struct GCMD_W {
    pub w: W,
}

impl GCMD_W {
    /// Sets the field bit.
    pub fn set_bit(self) -> (w: W)
        ensures
            w.bits == (self.w.bits & !(0x01u32 << 9)) | (0x01u32 << 9),
    {
        W { bits: (self.w.bits & !(0x01u32 << 9)) | (0x01u32 << 9) }
    }

    /// Clears the field bit.
    pub fn clear_bit(self) -> (w: W)
        ensures
            w.bits == self.w.bits & !(0x01u32 << 9),
    {
        W { bits: self.w.bits & !(0x01u32 << 9) }
    }

    /// Writes the field bit.
    pub fn bit(self, value: bool) -> (w: W)
        ensures
            w.bits == (self.w.bits & !(0x01u32 << 9)) | ((if value {
                0x01u32
            } else {
                0u32
            }) << 9),
    {
        W {
            bits: (self.w.bits & !(0x01u32 << 9)) | ((if value {
                0x01u32
            } else {
                0u32
            }) << 9),
        }
    }
}

/// Write proxy for field `AACKEN`.
pub struct AACKEN_W {
    pub w: W,
}

impl AACKEN_W {
    /// Sets the field bit.
    pub fn set_bit(self) -> (w: W)
        ensures
            w.bits == (self.w.bits & !(0x01u32 << 10)) | (0x01u32 << 10),
    {
        W { bits: (self.w.bits & !(0x01u32 << 10)) | (0x01u32 << 10) }
    }

    /// Clears the field bit.
    pub fn clear_bit(self) -> (w: W)
        ensures
            w.bits == self.w.bits & !(0x01u32 << 10),
    {
        W { bits: self.w.bits & !(0x01u32 << 10) }
    }

    /// Writes the field bit.
    pub fn bit(self, value: bool) -> (w: W)
        ensures
            w.bits == (self.w.bits & !(0x01u32 << 10)) | ((if value {
                0x01u32
            } else {
                0u32
            }) << 10),
    {
        W {
            bits: (self.w.bits & !(0x01u32 << 10)) | ((if value {
                0x01u32
            } else {
                0u32
            }) << 10),
        }
    }
}

/// Write proxy for field `AMODE`.
pub struct AMODE_W {
    pub w: W,
}

impl AMODE_W {
    /// Writes raw bits to the field, masked to its width.
    pub fn bits(self, value: u8) -> (w: W)
        ensures
            w.bits == (self.w.bits & !(0x03u32 << 14)) | (((value as u32) & 0x03) << 14),
    {
        W { bits: (self.w.bits & !(0x03u32 << 14)) | (((value as u32) & 0x03) << 14) }
    }
}

/// Write proxy for field `CMD`.
pub struct CMD_W {
    pub w: W,
}

impl CMD_W {
    /// Writes raw bits to the field, masked to its width.
    pub fn bits(self, value: u8) -> (w: W)
        ensures
            w.bits == (self.w.bits & !(0x03u32 << 16)) | (((value as u32) & 0x03) << 16),
    {
        W { bits: (self.w.bits & !(0x03u32 << 16)) | (((value as u32) & 0x03) << 16) }
    }
}

/// Write proxy for field `ACKACT`.
pub struct ACKACT_W {
    pub w: W,
}

impl ACKACT_W {
    /// Sets the field bit.
    pub fn set_bit(self) -> (w: W)
        ensures
            w.bits == (self.w.bits & !(0x01u32 << 18)) | (0x01u32 << 18),
    {
        W { bits: (self.w.bits & !(0x01u32 << 18)) | (0x01u32 << 18) }
    }

    /// Clears the field bit.
    pub fn clear_bit(self) -> (w: W)
        ensures
            w.bits == self.w.bits & !(0x01u32 << 18),
    {
        W { bits: self.w.bits & !(0x01u32 << 18) }
    }

    /// Writes the field bit.
    pub fn bit(self, value: bool) -> (w: W)
        ensures
            w.bits == (self.w.bits & !(0x01u32 << 18)) | ((if value {
                0x01u32
            } else {
                0u32
            }) << 18),
    {
        W {
            bits: (self.w.bits & !(0x01u32 << 18)) | ((if value {
                0x01u32
            } else {
                0u32
            }) << 18),
        }
    }
}

impl R {
    /// A reader over a captured register value.
    pub fn new(bits: u32) -> (r: R)
        ensures
            r.bits == bits,
    {
        R { bits }
    }

    /// The whole captured value.
    pub fn bits(&self) -> (r: u32)
        ensures
            r == self.bits,
    {
        self.bits
    }

    /// Bit 8 - smart mode enable.
    pub fn smen(&self) -> (r: bool)
        ensures
            r == (((self.bits >> 8) & 0x01) != 0),
    {
        ((self.bits >> 8) & 0x01) != 0
    }

    /// Bit 9 - group command.
    pub fn gcmd(&self) -> (r: bool)
        ensures
            r == (((self.bits >> 9) & 0x01) != 0),
    {
        ((self.bits >> 9) & 0x01) != 0
    }

    /// Bit 10 - automatic address acknowledge.
    pub fn aacken(&self) -> (r: bool)
        ensures
            r == (((self.bits >> 10) & 0x01) != 0),
    {
        ((self.bits >> 10) & 0x01) != 0
    }

    /// Bits 14:15 - address mode.
    pub fn amode(&self) -> (r: u8)
        ensures
            r == ((self.bits >> 14) & 0x03) as u8,
    {
        ((self.bits >> 14) & 0x03) as u8
    }

    /// Bit 18 - acknowledge action.
    pub fn ackact(&self) -> (r: bool)
        ensures
            r == (((self.bits >> 18) & 0x01) != 0),
    {
        ((self.bits >> 18) & 0x01) != 0
    }
}

impl W {
    /// A writer starting from the register's reset value, zero.
    pub fn reset() -> (w: W)
        ensures
            w.bits == 0,
    {
        W { bits: 0 }
    }

    /// Bit 8 - smart mode enable.
    pub fn smen(self) -> (p: SMEN_W)
        ensures
            p.w == self,
    {
        SMEN_W { w: self }
    }

    /// Bit 9 - group command.
    pub fn gcmd(self) -> (p: GCMD_W)
        ensures
            p.w == self,
    {
        GCMD_W { w: self }
    }

    /// Bit 10 - automatic address acknowledge.
    pub fn aacken(self) -> (p: AACKEN_W)
        ensures
            p.w == self,
    {
        AACKEN_W { w: self }
    }

    /// Bits 14:15 - address mode.
    pub fn amode(self) -> (p: AMODE_W)
        ensures
            p.w == self,
    {
        AMODE_W { w: self }
    }

    /// Bits 16:17 - command.
    pub fn cmd(self) -> (p: CMD_W)
        ensures
            p.w == self,
    {
        CMD_W { w: self }
    }

    /// Bit 18 - acknowledge action.
    pub fn ackact(self) -> (p: ACKACT_W)
        ensures
            p.w == self,
    {
        ACKACT_W { w: self }
    }
}

} // verus!
