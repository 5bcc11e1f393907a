//! The DMA controller and the pieces built on it: transfer descriptors, the
//! channel registry, and the circular streaming buffer.
//!
//! The controller owns the process-wide base and writeback descriptor tables,
//! one slot per channel, and a claimed-slot bitmap so that configuring the
//! same channel twice is a detectable error rather than silent corruption.

use vstd::prelude::*;

pub mod btctrl;
pub mod buffer;
pub mod channel;
pub mod descriptor;
pub mod serial;

use crate::dmac::channel::{Action, Channel, Events, Interrupts, TriggerSource};
use crate::dmac::descriptor::Descriptor;
use crate::pm;

verus! {

/// Number of hardware channels, and of slots in each descriptor table.
pub const NUM_CHANNELS: usize = 12;

/// Size in bytes of one descriptor record in a table.
pub const DESCRIPTOR_BYTES: u32 = 16;

/// Control register: software reset.
pub const CTRL_SWRST: u16 = 1u16 << 0;

/// Control register: enable the unit.
pub const CTRL_DMAENABLE: u16 = 1u16 << 1;

/// Control register: arbitration priority levels 0-3.
pub const CTRL_LVLEN0: u16 = 1u16 << 8;

pub const CTRL_LVLEN1: u16 = 1u16 << 9;

pub const CTRL_LVLEN2: u16 = 1u16 << 10;

pub const CTRL_LVLEN3: u16 = 1u16 << 11;

/// Debug-control register: keep running while the debugger halts the core.
pub const DBGCTRL_DBGRUN: u8 = 1u8 << 0;

/// Per-channel control A: enable the channel.
pub const CHCTRLA_ENABLE: u8 = 1u8 << 1;

/// Per-channel control B: act on input events.
pub const CHCTRLB_EVIE: u32 = 1u32 << 3;

/// Per-channel control B: emit output events.
pub const CHCTRLB_EVOE: u32 = 1u32 << 4;

/// Per-channel interrupt bits: transfer error, transfer complete, suspend.
pub const CHINT_TERR: u8 = 1u8 << 0;

pub const CHINT_TCMPL: u8 = 1u8 << 1;

pub const CHINT_SUSP: u8 = 1u8 << 2;

/// The DMA controller: its global and per-channel registers as plain values,
/// the base and writeback descriptor tables it scans, and the claimed-slot
/// bitmap guarding channel ownership.
pub struct DMAC {
    /// Global control register.
    pub ctrl: u16,
    /// Debug-run behaviour.
    pub dbgctrl: u8,
    /// Published physical address of the base descriptor table.
    pub baseaddr: u32,
    /// Published physical address of the writeback table.
    pub wrbaddr: u32,
    /// Currently selected channel.
    pub chid: u8,
    /// Software-trigger register.
    pub swtrigctrl: u16,
    /// Pending-interrupt bitmask, one bit per channel, maintained by
    /// hardware.
    pub intstatus: u16,
    /// Per-channel control A registers.
    pub chctrla: Vec<u8>,
    /// Per-channel control B registers.
    pub chctrlb: Vec<u32>,
    /// Per-channel armed interrupt sources.
    pub chintenset: Vec<u8>,
    /// Per-channel pending interrupt flags, set by hardware, cleared by
    /// acknowledging.
    pub chintflag: Vec<u8>,
    /// First descriptor of each channel's chain.
    pub base_descriptors: Vec<Descriptor>,
    /// Hardware-maintained post-execution snapshot per channel.
    pub writeback_descriptors: Vec<Descriptor>,
    /// Bitmap of channel slots claimed by a configured buffer.
    pub claimed: u16,
}

/// The value written to a channel's control B register: trigger source,
/// trigger action, and the requested event wiring, at priority level 0.
pub open spec fn chctrlb_value(source: TriggerSource, action: Action, events: Events) -> u32 {
    let base = ((source.spec_code() as u32) << 8) | ((action.spec_code() as u32) << 22);
    let with_output = if events.output {
        base | CHCTRLB_EVOE
    } else {
        base
    };
    match events.input {
        Some(input) => with_output | CHCTRLB_EVIE | (input.spec_code() as u32),
        None => with_output,
    }
}

/// The interrupt-enable bits armed for a requested interrupt selection.
pub open spec fn chint_mask(interrupts: Interrupts) -> u8 {
    let with_susp = if interrupts.suspend {
        0u8 | CHINT_SUSP
    } else {
        0u8
    };
    let with_tcmpl = if interrupts.transfer_complete {
        with_susp | CHINT_TCMPL
    } else {
        with_susp
    };
    if interrupts.transfer_error {
        with_tcmpl | CHINT_TERR
    } else {
        with_tcmpl
    }
}

/// Whether channel `c`'s bit is set in a pending mask.
pub open spec fn channel_pending(mask: u16, c: u16) -> bool {
    mask & (1u16 << c) != 0
}

/// The highest pending channel strictly below `n`, or -1 if none: the channel
/// left selected after a dispatch pass.
pub open spec fn last_pending_below(mask: u16, n: nat) -> int
    decreases n,
{
    if n == 0 {
        -1
    } else if channel_pending(mask, (n - 1) as u16) {
        n - 1
    } else {
        last_pending_below(mask, (n - 1) as nat)
    }
}

/// A vector of `n` copies of `val`.
fn filled_vec<T: Copy>(n: usize, val: T) -> (v: Vec<T>)
    ensures
        v.len() == n,
        forall|i: int| 0 <= i < n ==> v[i] == val,
{
    let mut v: Vec<T> = Vec::new();
    let mut i: usize = 0;
    while i < n
        invariant
            i <= n,
            v.len() == i,
            forall|j: int| 0 <= j < i ==> v[j] == val,
        decreases n - i,
    {
        v.push(val);
        i = i + 1;
    }
    v
}

impl DMAC {
    /// The descriptor tables and per-channel register files all have one slot
    /// per channel.
    pub open spec fn wf(self) -> bool {
        &&& self.chctrla.len() == NUM_CHANNELS
        &&& self.chctrlb.len() == NUM_CHANNELS
        &&& self.chintenset.len() == NUM_CHANNELS
        &&& self.chintflag.len() == NUM_CHANNELS
        &&& self.base_descriptors.len() == NUM_CHANNELS
        &&& self.writeback_descriptors.len() == NUM_CHANNELS
    }

    /// Whether a buffer has already claimed this channel's table slot.
    pub open spec fn spec_channel_claimed(self, ch: Channel) -> bool {
        self.claimed & (1u16 << (ch.spec_index() as u16)) != 0
    }

    pub fn channel_claimed(&self, ch: Channel) -> (r: bool)
        ensures
            r == self.spec_channel_claimed(ch),
    {
        self.claimed & (1u16 << (ch.index() as u16)) != 0
    }

    /// Bring the unit up: reset it, publish the physical addresses of the
    /// base and writeback tables, enable it with all four priority levels
    /// active, and keep it running under the debugger. Also opens the unit's
    /// bus clocks in the power manager.
    pub fn init(pm_regs: &mut pm::PM, base_table_addr: u32, writeback_table_addr: u32) -> (d: DMAC)
        ensures
            d.wf(),
            d.ctrl == CTRL_DMAENABLE | CTRL_LVLEN3 | CTRL_LVLEN2 | CTRL_LVLEN1 | CTRL_LVLEN0,
            d.dbgctrl == DBGCTRL_DBGRUN,
            d.baseaddr == base_table_addr,
            d.wrbaddr == writeback_table_addr,
            d.chid == 0,
            d.swtrigctrl == 0,
            d.intstatus == 0,
            forall|c: int| 0 <= c < NUM_CHANNELS ==> d.chctrla[c] == 0,
            forall|c: int| 0 <= c < NUM_CHANNELS ==> d.chctrlb[c] == 0,
            forall|c: int| 0 <= c < NUM_CHANNELS ==> d.chintenset[c] == 0,
            forall|c: int| 0 <= c < NUM_CHANNELS ==> d.chintflag[c] == 0,
            forall|c: int| 0 <= c < NUM_CHANNELS ==> d.base_descriptors[c]
                == descriptor::spec_default(),
            forall|c: int| 0 <= c < NUM_CHANNELS ==> d.writeback_descriptors[c]
                == descriptor::spec_default(),
            d.claimed == 0,
            final(pm_regs).ahbmask == old(pm_regs).ahbmask | pm::AHBMASK_DMAC,
            final(pm_regs).apbbmask == old(pm_regs).apbbmask | pm::APBBMASK_DMAC,
            final(pm_regs).apbamask == old(pm_regs).apbamask,
            final(pm_regs).apbcmask == old(pm_regs).apbcmask,
            final(pm_regs).rcause == old(pm_regs).rcause,
    {
        pm_regs.ahbmask = pm_regs.ahbmask | pm::AHBMASK_DMAC;
        pm_regs.apbbmask = pm_regs.apbbmask | pm::APBBMASK_DMAC;

        DMAC {
            ctrl: CTRL_DMAENABLE | CTRL_LVLEN3 | CTRL_LVLEN2 | CTRL_LVLEN1 | CTRL_LVLEN0,
            dbgctrl: DBGCTRL_DBGRUN,
            baseaddr: base_table_addr,
            wrbaddr: writeback_table_addr,
            chid: 0,
            swtrigctrl: 0,
            intstatus: 0,
            chctrla: filled_vec(NUM_CHANNELS, 0u8),
            chctrlb: filled_vec(NUM_CHANNELS, 0u32),
            chintenset: filled_vec(NUM_CHANNELS, 0u8),
            chintflag: filled_vec(NUM_CHANNELS, 0u8),
            base_descriptors: filled_vec(NUM_CHANNELS, descriptor::default()),
            writeback_descriptors: filled_vec(NUM_CHANNELS, descriptor::default()),
            claimed: 0,
        }
    }

    /// Select a channel and program it: trigger source and action, optional
    /// event wiring (only channels 0-3 reach the event crossbar, so events on
    /// any other channel are ruled out by precondition), enable it, and arm
    /// the requested interrupt sources.
    pub fn channel(
        &mut self,
        ch: Channel,
        source: TriggerSource,
        action: Action,
        events: Events,
        interrupts: Interrupts,
    )
        requires
            old(self).wf(),
            (events.output || events.input is Some) ==> ch.spec_index() < 4,
        ensures
            final(self).wf(),
            final(self).chid == ch.spec_index(),
            final(self).chctrlb@ == old(self).chctrlb@.update(
                ch.spec_index() as int,
                chctrlb_value(source, action, events),
            ),
            final(self).chctrla@ == old(self).chctrla@.update(
                ch.spec_index() as int,
                CHCTRLA_ENABLE,
            ),
            final(self).chintenset@ == old(self).chintenset@.update(
                ch.spec_index() as int,
                old(self).chintenset@[ch.spec_index() as int] | chint_mask(interrupts),
            ),
            final(self).ctrl == old(self).ctrl,
            final(self).dbgctrl == old(self).dbgctrl,
            final(self).baseaddr == old(self).baseaddr,
            final(self).wrbaddr == old(self).wrbaddr,
            final(self).swtrigctrl == old(self).swtrigctrl,
            final(self).intstatus == old(self).intstatus,
            final(self).chintflag == old(self).chintflag,
            final(self).base_descriptors == old(self).base_descriptors,
            final(self).writeback_descriptors == old(self).writeback_descriptors,
            final(self).claimed == old(self).claimed,
    {
        let idx = ch.index();
        self.chid = idx;

        let base = ((source.code() as u32) << 8) | ((action.code() as u32) << 22);
        let with_output = if events.output {
            base | CHCTRLB_EVOE
        } else {
            base
        };
        let value = match events.input {
            Some(input) => with_output | CHCTRLB_EVIE | (input.code() as u32),
            None => with_output,
        };
        self.chctrlb[idx as usize] = value;

        self.chctrla[idx as usize] = CHCTRLA_ENABLE;

        let with_susp = if interrupts.suspend {
            0u8 | CHINT_SUSP
        } else {
            0u8
        };
        let with_tcmpl = if interrupts.transfer_complete {
            with_susp | CHINT_TCMPL
        } else {
            with_susp
        };
        let mask = if interrupts.transfer_error {
            with_tcmpl | CHINT_TERR
        } else {
            with_tcmpl
        };
        self.chintenset[idx as usize] = self.chintenset[idx as usize] | mask;
    }

    /// Issue a software start for the channel.
    pub fn trigger(&mut self, ch: Channel)
        ensures
            final(self).swtrigctrl == 1u16 << (ch.spec_index() as u16),
            final(self).ctrl == old(self).ctrl,
            final(self).dbgctrl == old(self).dbgctrl,
            final(self).baseaddr == old(self).baseaddr,
            final(self).wrbaddr == old(self).wrbaddr,
            final(self).chid == old(self).chid,
            final(self).intstatus == old(self).intstatus,
            final(self).chctrla == old(self).chctrla,
            final(self).chctrlb == old(self).chctrlb,
            final(self).chintenset == old(self).chintenset,
            final(self).chintflag == old(self).chintflag,
            final(self).base_descriptors == old(self).base_descriptors,
            final(self).writeback_descriptors == old(self).writeback_descriptors,
            final(self).claimed == old(self).claimed,
    {
        self.swtrigctrl = match ch {
            Channel::Channel0 => 1u16 << 0u16,
            Channel::Channel1 => 1u16 << 1u16,
            Channel::Channel2 => 1u16 << 2u16,
            Channel::Channel3 => 1u16 << 3u16,
            Channel::Channel4 => 1u16 << 4u16,
            Channel::Channel5 => 1u16 << 5u16,
            Channel::Channel6 => 1u16 << 6u16,
            Channel::Channel7 => 1u16 << 7u16,
            Channel::Channel8 => 1u16 << 8u16,
            Channel::Channel9 => 1u16 << 9u16,
            Channel::Channel10 => 1u16 << 10u16,
            Channel::Channel11 => 1u16 << 11u16,
        };
    }

    /// The single interrupt dispatch point: for each channel whose bit is set
    /// in the pending mask, select it and acknowledge whichever of the
    /// suspend, transfer-complete and transfer-error flags are set. Leaves
    /// the highest pending channel selected.
    pub fn interrupt(&mut self)
        requires
            old(self).wf(),
        ensures
            final(self).wf(),
            forall|c: int|
                0 <= c < NUM_CHANNELS ==> final(self).chintflag@[c] == (if channel_pending(
                    old(self).intstatus,
                    c as u16,
                ) {
                    old(self).chintflag@[c] & !7u8
                } else {
                    old(self).chintflag@[c]
                }),
            final(self).chid == (if last_pending_below(old(self).intstatus, NUM_CHANNELS as nat)
                >= 0 {
                last_pending_below(old(self).intstatus, NUM_CHANNELS as nat) as u8
            } else {
                old(self).chid
            }),
            final(self).ctrl == old(self).ctrl,
            final(self).dbgctrl == old(self).dbgctrl,
            final(self).baseaddr == old(self).baseaddr,
            final(self).wrbaddr == old(self).wrbaddr,
            final(self).swtrigctrl == old(self).swtrigctrl,
            final(self).intstatus == old(self).intstatus,
            final(self).chctrla == old(self).chctrla,
            final(self).chctrlb == old(self).chctrlb,
            final(self).chintenset == old(self).chintenset,
            final(self).base_descriptors == old(self).base_descriptors,
            final(self).writeback_descriptors == old(self).writeback_descriptors,
            final(self).claimed == old(self).claimed,
    {
        let ghost orig: DMAC = *self;
        let channels = self.intstatus;

        let mut ch: u16 = 0;
        while ch < 12
            invariant
                self.wf(),
                ch <= 12,
                channels == orig.intstatus,
                forall|c: int|
                    0 <= c < ch ==> self.chintflag@[c] == (if channel_pending(
                        channels,
                        c as u16,
                    ) {
                        orig.chintflag@[c] & !7u8
                    } else {
                        orig.chintflag@[c]
                    }),
                forall|c: int| ch <= c < NUM_CHANNELS ==> self.chintflag@[c] == orig.chintflag@[c],
                self.chid == (if last_pending_below(channels, ch as nat) >= 0 {
                    last_pending_below(channels, ch as nat) as u8
                } else {
                    orig.chid
                }),
                self.ctrl == orig.ctrl,
                self.dbgctrl == orig.dbgctrl,
                self.baseaddr == orig.baseaddr,
                self.wrbaddr == orig.wrbaddr,
                self.swtrigctrl == orig.swtrigctrl,
                self.intstatus == orig.intstatus,
                self.chctrla == orig.chctrla,
                self.chctrlb == orig.chctrlb,
                self.chintenset == orig.chintenset,
                self.base_descriptors == orig.base_descriptors,
                self.writeback_descriptors == orig.writeback_descriptors,
                self.claimed == orig.claimed,
            decreases 12 - ch,
        {
            let mask: u16 = 1u16 << ch;
            if (channels & mask) != 0 {
                self.chid = ch as u8;
                let flags = self.chintflag[ch as usize];
                self.chintflag[ch as usize] = flags & !7u8;
            }
            ch = ch + 1;
        }
    }
}

} // verus!
