//! Debug-control register of the position decoder: a single debug-run bit.
//! Resets to zero.

use vstd::prelude::*;

verus! {

/// Reader of the register.
pub struct R {
    pub bits: u8,
}

/// Writer for the register.
pub struct W {
    pub bits: u8,
}

/// Write proxy for field `DBGRUN`.
pub struct DBGRUN_W {
    pub w: W,
}

impl DBGRUN_W {
    /// Sets the field bit.
    pub fn set_bit(self) -> (w: W)
        ensures
            w.bits == (self.w.bits & !0x01u8) | 0x01u8,
    {
        W { bits: (self.w.bits & !0x01u8) | 0x01u8 }
    }

    /// Clears the field bit.
    pub fn clear_bit(self) -> (w: W)
        ensures
            w.bits == self.w.bits & !0x01u8,
    {
        W { bits: self.w.bits & !0x01u8 }
    }

    /// Writes the field bit.
    pub fn bit(self, value: bool) -> (w: W)
        ensures
            w.bits == (self.w.bits & !0x01u8) | (if value {
                0x01u8
            } else {
                0u8
            }),
    {
        W {
            bits: (self.w.bits & !0x01u8) | (if value {
                0x01u8
            } else {
                0u8
            }),
        }
    }
}

impl R {
    /// A reader over a captured register value.
    pub fn new(bits: u8) -> (r: R)
        ensures
            r.bits == bits,
    {
        R { bits }
    }

    /// The whole captured value.
    pub fn bits(&self) -> (r: u8)
        ensures
            r == self.bits,
    {
        self.bits
    }

    /// Bit 0 - debug run mode.
    pub fn dbgrun(&self) -> (r: bool)
        ensures
            r == ((self.bits & 0x01) != 0),
    {
        (self.bits & 0x01) != 0
    }
}

impl W {
    /// A writer starting from the register's reset value, zero.
    pub fn reset() -> (w: W)
        ensures
            w.bits == 0,
    {
        W { bits: 0 }
    }

    /// Bit 0 - debug run mode.
    pub fn dbgrun(self) -> (p: DBGRUN_W)
        ensures
            p.w == self,
    {
        DBGRUN_W { w: self }
    }
}

} // verus!
