//! Prescaler buffer register of the position decoder: a four-bit field
//! selecting a division factor from 1 to 1024, with the remaining encodings
//! reserved. Resets to zero.

use vstd::prelude::*;

verus! {

/// The division factors the prescaler-buffer field can select.
#[derive(Debug, Clone, Copy, PartialEq, Eq, Structural)]
pub enum PRESCBUF_A {
    /// No division.
    DIV1,
    /// Divide by 2.
    DIV2,
    /// Divide by 4.
    DIV4,
    /// Divide by 8.
    DIV8,
    /// Divide by 16.
    DIV16,
    /// Divide by 32.
    DIV32,
    /// Divide by 64.
    DIV64,
    /// Divide by 128.
    DIV128,
    /// Divide by 256.
    DIV256,
    /// Divide by 512.
    DIV512,
    /// Divide by 1024.
    DIV1024,
}

impl PRESCBUF_A {
    /// The field encoding of this factor.
    pub open spec fn spec_value(self) -> u8 {
        match self {
            PRESCBUF_A::DIV1 => 0,
            PRESCBUF_A::DIV2 => 1,
            PRESCBUF_A::DIV4 => 2,
            PRESCBUF_A::DIV8 => 3,
            PRESCBUF_A::DIV16 => 4,
            PRESCBUF_A::DIV32 => 5,
            PRESCBUF_A::DIV64 => 6,
            PRESCBUF_A::DIV128 => 7,
            PRESCBUF_A::DIV256 => 8,
            PRESCBUF_A::DIV512 => 9,
            PRESCBUF_A::DIV1024 => 10,
        }
    }

    pub fn value(self) -> (r: u8)
        ensures
            r == self.spec_value(),
    {
        match self {
            PRESCBUF_A::DIV1 => 0,
            PRESCBUF_A::DIV2 => 1,
            PRESCBUF_A::DIV4 => 2,
            PRESCBUF_A::DIV8 => 3,
            PRESCBUF_A::DIV16 => 4,
            PRESCBUF_A::DIV32 => 5,
            PRESCBUF_A::DIV64 => 6,
            PRESCBUF_A::DIV128 => 7,
            PRESCBUF_A::DIV256 => 8,
            PRESCBUF_A::DIV512 => 9,
            PRESCBUF_A::DIV1024 => 10,
        }
    }
}

/// A decoded field value: a known factor, or a reserved raw encoding.
#[derive(Debug, Clone, Copy, PartialEq, Eq, Structural)]
pub enum Variant {
    /// One of the enumerated factors.
    Val(PRESCBUF_A),
    /// A reserved encoding, carried through raw.
    Res(u8),
}

/// The decoding of a captured field value.
pub open spec fn spec_variant(bits: u8) -> Variant {
    match bits {
        0 => Variant::Val(PRESCBUF_A::DIV1),
        1 => Variant::Val(PRESCBUF_A::DIV2),
        2 => Variant::Val(PRESCBUF_A::DIV4),
        3 => Variant::Val(PRESCBUF_A::DIV8),
        4 => Variant::Val(PRESCBUF_A::DIV16),
        5 => Variant::Val(PRESCBUF_A::DIV32),
        6 => Variant::Val(PRESCBUF_A::DIV64),
        7 => Variant::Val(PRESCBUF_A::DIV128),
        8 => Variant::Val(PRESCBUF_A::DIV256),
        9 => Variant::Val(PRESCBUF_A::DIV512),
        10 => Variant::Val(PRESCBUF_A::DIV1024),
        _ => Variant::Res(bits),
    }
}

/// Reader of the field.
pub struct PRESCBUF_R {
    pub bits: u8,
}

impl PRESCBUF_R {
    /// A reader over a captured field value.
    pub fn new(bits: u8) -> (r: PRESCBUF_R)
        ensures
            r.bits == bits,
    {
        PRESCBUF_R { bits }
    }

    /// Get the enumerated value's variant.
    pub fn variant(&self) -> (r: Variant)
        ensures
            r == spec_variant(self.bits),
    {
        match self.bits {
            0 => Variant::Val(PRESCBUF_A::DIV1),
            1 => Variant::Val(PRESCBUF_A::DIV2),
            2 => Variant::Val(PRESCBUF_A::DIV4),
            3 => Variant::Val(PRESCBUF_A::DIV8),
            4 => Variant::Val(PRESCBUF_A::DIV16),
            5 => Variant::Val(PRESCBUF_A::DIV32),
            6 => Variant::Val(PRESCBUF_A::DIV64),
            7 => Variant::Val(PRESCBUF_A::DIV128),
            8 => Variant::Val(PRESCBUF_A::DIV256),
            9 => Variant::Val(PRESCBUF_A::DIV512),
            10 => Variant::Val(PRESCBUF_A::DIV1024),
            i => Variant::Res(i),
        }
    }

    /// Checks if the value of the field is `DIV1`.
    pub fn is_div1(&self) -> (r: bool)
        ensures
            r == (self.bits == 0),
    {
        self.bits == 0
    }

    /// Checks if the value of the field is `DIV2`.
    pub fn is_div2(&self) -> (r: bool)
        ensures
            r == (self.bits == 1),
    {
        self.bits == 1
    }

    /// Checks if the value of the field is `DIV4`.
    pub fn is_div4(&self) -> (r: bool)
        ensures
            r == (self.bits == 2),
    {
        self.bits == 2
    }

    /// Checks if the value of the field is `DIV8`.
    pub fn is_div8(&self) -> (r: bool)
        ensures
            r == (self.bits == 3),
    {
        self.bits == 3
    }

    /// Checks if the value of the field is `DIV16`.
    pub fn is_div16(&self) -> (r: bool)
        ensures
            r == (self.bits == 4),
    {
        self.bits == 4
    }

    /// Checks if the value of the field is `DIV32`.
    pub fn is_div32(&self) -> (r: bool)
        ensures
            r == (self.bits == 5),
    {
        self.bits == 5
    }

    /// Checks if the value of the field is `DIV64`.
    pub fn is_div64(&self) -> (r: bool)
        ensures
            r == (self.bits == 6),
    {
        self.bits == 6
    }

    /// Checks if the value of the field is `DIV128`.
    pub fn is_div128(&self) -> (r: bool)
        ensures
            r == (self.bits == 7),
    {
        self.bits == 7
    }

    /// Checks if the value of the field is `DIV256`.
    pub fn is_div256(&self) -> (r: bool)
        ensures
            r == (self.bits == 8),
    {
        self.bits == 8
    }

    /// Checks if the value of the field is `DIV512`.
    pub fn is_div512(&self) -> (r: bool)
        ensures
            r == (self.bits == 9),
    {
        self.bits == 9
    }

    /// Checks if the value of the field is `DIV1024`.
    pub fn is_div1024(&self) -> (r: bool)
        ensures
            r == (self.bits == 10),
    {
        self.bits == 10
    }
}

/// Reader of the register.
pub struct R {
    pub bits: u8,
}

/// Writer for the register.
pub struct W {
    pub bits: u8,
}

/// Write proxy for field `PRESCBUF`.
pub struct PRESCBUF_W {
    pub w: W,
}

impl PRESCBUF_W {
    /// Writes `variant` to the field.
    pub fn variant(self, variant: PRESCBUF_A) -> (w: W)
        ensures
            w.bits == (self.w.bits & !0x0fu8) | variant.spec_value(),
    {
        let value = variant.value();
        W { bits: (self.w.bits & !0x0fu8) | value }
    }

    /// No division.
    pub fn div1(self) -> (w: W)
        ensures
            w.bits == (self.w.bits & !0x0fu8) | PRESCBUF_A::DIV1.spec_value(),
    {
        self.variant(PRESCBUF_A::DIV1)
    }

    /// Divide by 2.
    pub fn div2(self) -> (w: W)
        ensures
            w.bits == (self.w.bits & !0x0fu8) | PRESCBUF_A::DIV2.spec_value(),
    {
        self.variant(PRESCBUF_A::DIV2)
    }

    /// Divide by 4.
    pub fn div4(self) -> (w: W)
        ensures
            w.bits == (self.w.bits & !0x0fu8) | PRESCBUF_A::DIV4.spec_value(),
    {
        self.variant(PRESCBUF_A::DIV4)
    }

    /// Divide by 8.
    pub fn div8(self) -> (w: W)
        ensures
            w.bits == (self.w.bits & !0x0fu8) | PRESCBUF_A::DIV8.spec_value(),
    {
        self.variant(PRESCBUF_A::DIV8)
    }

    /// Divide by 16.
    pub fn div16(self) -> (w: W)
        ensures
            w.bits == (self.w.bits & !0x0fu8) | PRESCBUF_A::DIV16.spec_value(),
    {
        self.variant(PRESCBUF_A::DIV16)
    }

    /// Divide by 32.
    pub fn div32(self) -> (w: W)
        ensures
            w.bits == (self.w.bits & !0x0fu8) | PRESCBUF_A::DIV32.spec_value(),
    {
        self.variant(PRESCBUF_A::DIV32)
    }

    /// Divide by 64.
    pub fn div64(self) -> (w: W)
        ensures
            w.bits == (self.w.bits & !0x0fu8) | PRESCBUF_A::DIV64.spec_value(),
    {
        self.variant(PRESCBUF_A::DIV64)
    }

    /// Divide by 128.
    pub fn div128(self) -> (w: W)
        ensures
            w.bits == (self.w.bits & !0x0fu8) | PRESCBUF_A::DIV128.spec_value(),
    {
        self.variant(PRESCBUF_A::DIV128)
    }

    /// Divide by 256.
    pub fn div256(self) -> (w: W)
        ensures
            w.bits == (self.w.bits & !0x0fu8) | PRESCBUF_A::DIV256.spec_value(),
    {
        self.variant(PRESCBUF_A::DIV256)
    }

    /// Divide by 512.
    pub fn div512(self) -> (w: W)
        ensures
            w.bits == (self.w.bits & !0x0fu8) | PRESCBUF_A::DIV512.spec_value(),
    {
        self.variant(PRESCBUF_A::DIV512)
    }

    /// Divide by 1024.
    pub fn div1024(self) -> (w: W)
        ensures
            w.bits == (self.w.bits & !0x0fu8) | PRESCBUF_A::DIV1024.spec_value(),
    {
        self.variant(PRESCBUF_A::DIV1024)
    }

    /// Writes raw bits to the field, masked to its width.
    pub fn bits(self, value: u8) -> (w: W)
        ensures
            w.bits == (self.w.bits & !0x0fu8) | (value & 0x0f),
    {
        W { bits: (self.w.bits & !0x0fu8) | (value & 0x0f) }
    }
}

impl R {
    /// A reader over a captured register value.
    pub fn new(bits: u8) -> (r: R)
        ensures
            r.bits == bits,
    {
        R { bits }
    }

    /// The whole captured value.
    pub fn bits(&self) -> (r: u8)
        ensures
            r == self.bits,
    {
        self.bits
    }

    /// Bits 0:3 - prescaler buffer value.
    pub fn prescbuf(&self) -> (f: PRESCBUF_R)
        ensures
            f.bits == (self.bits & 0x0f),
    {
        PRESCBUF_R::new(self.bits & 0x0f)
    }
}

impl W {
    /// A writer starting from the register's reset value, zero.
    pub fn reset() -> (w: W)
        ensures
            w.bits == 0,
    {
        W { bits: 0 }
    }

    /// Bits 0:3 - prescaler buffer value.
    pub fn prescbuf(self) -> (p: PRESCBUF_W)
        ensures
            p.w == self,
    {
        PRESCBUF_W { w: self }
    }
}

} // verus!
