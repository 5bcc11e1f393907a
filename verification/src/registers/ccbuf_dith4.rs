//! Compare/capture buffer register of the timer in four-bit dithering mode:
//! the buffered compare value in bits 4-23 and the dithering cycle count in
//! bits 0-3. Resets to zero.

use vstd::prelude::*;

verus! {

/// Reader of the register.
pub struct R {
    pub bits: u32,
}

/// Writer for the register.
pub struct W {
    pub bits: u32,
}

/// Write proxy for field `CCBUF`.
pub struct CCBUF_W {
    pub w: W,
}

impl CCBUF_W {
    /// Writes raw bits to the field, masked to its width.
    pub fn bits(self, value: u32) -> (w: W)
        ensures
            w.bits == (self.w.bits & !(0x000f_ffffu32 << 4)) | ((value & 0x000f_ffff) << 4),
    {
        W { bits: (self.w.bits & !(0x000f_ffffu32 << 4)) | ((value & 0x000f_ffff) << 4) }
    }
}

/// Write proxy for field `DITHERBUF`.
pub struct DITHERBUF_W {
    pub w: W,
}

impl DITHERBUF_W {
    /// Writes raw bits to the field, masked to its width.
    pub fn bits(self, value: u8) -> (w: W)
        ensures
            w.bits == (self.w.bits & !0x0fu32) | ((value as u32) & 0x0f),
    {
        W { bits: (self.w.bits & !0x0fu32) | ((value as u32) & 0x0f) }
    }
}

impl R {
    /// A reader over a captured register value.
    pub fn new(bits: u32) -> (r: R)
        ensures
            r.bits == bits,
    {
        R { bits }
    }

    /// The whole captured value.
    pub fn bits(&self) -> (r: u32)
        ensures
            r == self.bits,
    {
        self.bits
    }

    /// Bits 4:23 - buffered channel compare/capture value.
    pub fn ccbuf(&self) -> (r: u32)
        ensures
            r == ((self.bits >> 4) & 0x000f_ffff),
    {
        (self.bits >> 4) & 0x000f_ffff
    }

    /// Bits 0:3 - dithering buffer cycle number.
    pub fn ditherbuf(&self) -> (r: u8)
        ensures
            r == (self.bits & 0x0f) as u8,
    {
        (self.bits & 0x0f) as u8
    }
}

impl W {
    /// A writer starting from the register's reset value, zero.
    pub fn reset() -> (w: W)
        ensures
            w.bits == 0,
    {
        W { bits: 0 }
    }

    /// Bits 4:23 - buffered channel compare/capture value.
    pub fn ccbuf(self) -> (p: CCBUF_W)
        ensures
            p.w == self,
    {
        CCBUF_W { w: self }
    }

    /// Bits 0:3 - dithering buffer cycle number.
    pub fn ditherbuf(self) -> (p: DITHERBUF_W)
        ensures
            p.w == self,
    {
        DITHERBUF_W { w: self }
    }
}

} // verus!
