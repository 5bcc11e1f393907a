//! One hardware transfer descriptor — the 16-byte record the engine walks —
//! and builders for the four canonical transfer patterns.
//!
//! Hardware convention: an address on an auto-incrementing side is programmed
//! as the address *after* the last beat; a fixed side stores the literal
//! register address. The caller guarantees that the addressed ranges are
//! valid; the builders only encode them.

use vstd::prelude::*;

use crate::dmac::btctrl::{Beatsize, BlockAction, Btctrl, EventOutputAction, Stepsel, Stepsize};

verus! {

/// One transfer descriptor: control word, beat count, source address,
/// destination address, and the address of the next descriptor in the chain
/// (zero for none). Addresses are the 32-bit values the hardware sees.
#[derive(Debug, Clone, Copy, PartialEq, Eq, Structural)]
pub struct Descriptor {
    pub btctrl: Btctrl,
    pub btcnt: u16,
    pub srcaddr: u32,
    pub dstaddr: u32,
    pub descaddr: u32,
}

/// The all-zero descriptor as a specification value.
pub open spec fn spec_default() -> Descriptor {
    Descriptor { btctrl: Btctrl(0), btcnt: 0, srcaddr: 0, dstaddr: 0, descaddr: 0 }
}

/// The all-zero descriptor: invalid, so the hardware will not execute it.
pub fn default() -> (d: Descriptor)
    ensures
        d == spec_default(),
{
    Descriptor { btctrl: Btctrl(0), btcnt: 0, srcaddr: 0, dstaddr: 0, descaddr: 0 }
}

impl Default for Descriptor {
    /// The all-zero, invalid descriptor.
    fn default() -> (d: Descriptor)
        ensures
            d == spec_default(),
    {
        default()
    }
}

/// The control word every builder produces: valid, step multiplier x1, no
/// block action, no event output, with the increment flags, step selector and
/// beat size of the chosen pattern.
pub open spec fn ctrl_word(stepsel: Stepsel, dstinc: bool, srcinc: bool, beatsize: Beatsize) -> u16 {
    1u16 | ((beatsize.spec_bits() as u16) << 8) | (if srcinc {
        0x0400u16
    } else {
        0u16
    }) | (if dstinc {
        0x0800u16
    } else {
        0u16
    }) | ((stepsel.spec_bits() as u16) << 12)
}

proof fn lemma_ctrl_compose(
    w1: u16,
    w2: u16,
    w3: u16,
    w4: u16,
    w5: u16,
    w6: u16,
    w7: u16,
    w8: u16,
    selv: u16,
    beatv: u16,
    dstbit: u16,
    srcbit: u16,
)
    by (bit_vector)
    requires
        selv <= 1,
        beatv <= 2,
        dstbit == 0x0800 || dstbit == 0,
        srcbit == 0x0400 || srcbit == 0,
        w1 == (0u16 & !0xe000) | (0u16 << 13),
        w2 == (w1 & !0x1000) | (selv << 12),
        w3 == (w2 & !0x0800) | dstbit,
        w4 == (w3 & !0x0400) | srcbit,
        w5 == (w4 & !0x0300) | (beatv << 8),
        w6 == (w5 & !0x0018) | (0u16 << 3),
        w7 == (w6 & !0x0006) | (0u16 << 1),
        w8 == (w7 & !0x0001) | 1u16,
    ensures
        w8 == 1u16 | (beatv << 8) | srcbit | dstbit | (selv << 12),
{
}

/// Assemble the common control word by setting each field in turn.
fn make_ctrl(stepsel: Stepsel, dstinc: bool, srcinc: bool, beatsize: Beatsize) -> (r: Btctrl)
    ensures
        r.0 == ctrl_word(stepsel, dstinc, srcinc, beatsize),
{
    let mut btctrl = Btctrl(0);
    btctrl.set_stepsize(Stepsize::X1);
    let ghost w1: u16 = btctrl.0;
    btctrl.set_stepsel(stepsel);
    let ghost w2: u16 = btctrl.0;
    btctrl.set_dstinc(dstinc);
    let ghost w3: u16 = btctrl.0;
    btctrl.set_srcinc(srcinc);
    let ghost w4: u16 = btctrl.0;
    btctrl.set_beatsize(beatsize);
    let ghost w5: u16 = btctrl.0;
    btctrl.set_blockact(BlockAction::NoAct);
    let ghost w6: u16 = btctrl.0;
    btctrl.set_evosel(EventOutputAction::Disable);
    let ghost w7: u16 = btctrl.0;
    btctrl.set_valid(true);
    proof {
        lemma_ctrl_compose(
            w1,
            w2,
            w3,
            w4,
            w5,
            w6,
            w7,
            btctrl.0,
            stepsel.spec_bits() as u16,
            beatsize.spec_bits() as u16,
            if dstinc { 0x0800u16 } else { 0u16 },
            if srcinc { 0x0400u16 } else { 0u16 },
        );
    }
    btctrl
}

impl Descriptor {
    /// Copy 1 word from `src` to `len` words at an incrementing `dst`.
    pub fn memset_u32_pattern1(src: u32, dst: u32, len: u16) -> (d: Descriptor)
        requires
            dst + 4 * len <= u32::MAX,
        ensures
            d.btctrl.0 == ctrl_word(Stepsel::StepDst, true, false, Beatsize::Word),
            d.btcnt == len,
            d.srcaddr == src,
            d.dstaddr == dst + 4 * len,
            d.descaddr == 0,
    {
        Descriptor {
            btctrl: make_ctrl(Stepsel::StepDst, true, false, Beatsize::Word),
            btcnt: len,
            srcaddr: src,
            dstaddr: dst + 4 * (len as u32),
            descaddr: 0,
        }
    }

    /// Copy 1 half-word from `src` to `len` half-words at an incrementing
    /// `dst`.
    pub fn memset_u16_pattern1(src: u32, dst: u32, len: u16) -> (d: Descriptor)
        requires
            dst + 2 * len <= u32::MAX,
        ensures
            d.btctrl.0 == ctrl_word(Stepsel::StepDst, true, false, Beatsize::HalfWord),
            d.btcnt == len,
            d.srcaddr == src,
            d.dstaddr == dst + 2 * len,
            d.descaddr == 0,
    {
        Descriptor {
            btctrl: make_ctrl(Stepsel::StepDst, true, false, Beatsize::HalfWord),
            btcnt: len,
            srcaddr: src,
            dstaddr: dst + 2 * (len as u32),
            descaddr: 0,
        }
    }

    /// Copy 1 byte from `src` to `len` bytes at an incrementing `dst`.
    pub fn memset_u8_pattern1(src: u32, dst: u32, len: u16) -> (d: Descriptor)
        requires
            dst + len <= u32::MAX,
        ensures
            d.btctrl.0 == ctrl_word(Stepsel::StepDst, true, false, Beatsize::Byte),
            d.btcnt == len,
            d.srcaddr == src,
            d.dstaddr == dst + len,
            d.descaddr == 0,
    {
        Descriptor {
            btctrl: make_ctrl(Stepsel::StepDst, true, false, Beatsize::Byte),
            btcnt: len,
            srcaddr: src,
            dstaddr: dst + (len as u32),
            descaddr: 0,
        }
    }

    /// Copy `len` bytes from an incrementing `src` to a single fixed `dst`
    /// register address.
    pub fn memcpy_u8_peripheral(src: u32, dst: u32, len: u16) -> (d: Descriptor)
        requires
            src + len <= u32::MAX,
        ensures
            d.btctrl.0 == ctrl_word(Stepsel::StepSrc, false, true, Beatsize::Byte),
            d.btcnt == len,
            d.srcaddr == src + len,
            d.dstaddr == dst,
            d.descaddr == 0,
    {
        Descriptor {
            btctrl: make_ctrl(Stepsel::StepSrc, false, true, Beatsize::Byte),
            btcnt: len,
            srcaddr: src + (len as u32),
            dstaddr: dst,
            descaddr: 0,
        }
    }

    /// Copy `len` bytes from an incrementing `src` to `len` bytes at an
    /// incrementing `dst`.
    pub fn memcpy_u8(src: u32, dst: u32, len: u16) -> (d: Descriptor)
        requires
            src + len <= u32::MAX,
            dst + len <= u32::MAX,
        ensures
            d.btctrl.0 == ctrl_word(Stepsel::StepSrc, true, true, Beatsize::Byte),
            d.btcnt == len,
            d.srcaddr == src + len,
            d.dstaddr == dst + len,
            d.descaddr == 0,
    {
        Descriptor {
            btctrl: make_ctrl(Stepsel::StepSrc, true, true, Beatsize::Byte),
            btcnt: len,
            srcaddr: src + (len as u32),
            dstaddr: dst + (len as u32),
            descaddr: 0,
        }
    }
}

} // verus!
