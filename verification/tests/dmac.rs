use samd_hal::dmac::btctrl::{Beatsize, BlockAction, Btctrl, EventOutputAction, Stepsel, Stepsize};
use samd_hal::dmac::channel::{Action, Channel, EventInputAction, Events, Interrupts, TriggerSource};
use samd_hal::dmac::descriptor::{self, Descriptor};
use samd_hal::dmac::DMAC;
use samd_hal::events::{Generator, User};
use samd_hal::pm::PM;

fn fresh_dmac() -> DMAC {
    let mut pm = PM::new();
    DMAC::init(&mut pm, 0x2000_0000, 0x2000_0200)
}

#[test]
fn init_enables_unit_and_publishes_tables() {
    let mut pm = PM::new();
    let dmac = DMAC::init(&mut pm, 0x2000_0000, 0x2000_0200);

    // Enabled with all four priority levels active.
    assert_eq!(dmac.ctrl, 0x0f02);
    assert_eq!(dmac.dbgctrl, 0x01);
    assert_eq!(dmac.baseaddr, 0x2000_0000);
    assert_eq!(dmac.wrbaddr, 0x2000_0200);
    assert_eq!(dmac.claimed, 0);

    // Bus clocks opened.
    assert_eq!(pm.ahbmask, 1 << 5);
    assert_eq!(pm.apbbmask, 1 << 4);

    // Every table slot starts as the invalid all-zero descriptor.
    for c in 0..12 {
        assert_eq!(dmac.base_descriptors[c], descriptor::default());
        assert_eq!(dmac.writeback_descriptors[c], descriptor::default());
        assert_eq!(dmac.chctrla[c], 0);
        assert_eq!(dmac.chintenset[c], 0);
    }
}

#[test]
fn channel_programs_trigger_and_interrupts() {
    let mut dmac = fresh_dmac();
    dmac.channel(
        Channel::Channel5,
        TriggerSource::Sercom0Rx,
        Action::Beat,
        Events { output: false, input: None },
        Interrupts { suspend: false, transfer_complete: true, transfer_error: true },
    );

    assert_eq!(dmac.chid, 5);
    // Trigger source code 0x1 at bits 8-13, beat action (2) at bits 22-23.
    assert_eq!(dmac.chctrlb[5], (0x1 << 8) | (2 << 22));
    // Channel enabled.
    assert_eq!(dmac.chctrla[5], 0x02);
    // Transfer-complete (bit 1) and transfer-error (bit 0) armed.
    assert_eq!(dmac.chintenset[5], 0x03);
}

#[test]
fn channel_wires_events_on_low_channels() {
    let mut dmac = fresh_dmac();
    dmac.channel(
        Channel::Channel1,
        TriggerSource::Software,
        Action::Block,
        Events { output: true, input: Some(EventInputAction::Trig) },
        Interrupts { suspend: true, transfer_complete: false, transfer_error: false },
    );

    // Output event (bit 4), input event (bit 3) with the trigger action
    // (code 1) in bits 0-2.
    assert_eq!(dmac.chctrlb[1], (1 << 4) | (1 << 3) | 1);
    assert_eq!(dmac.chintenset[1], 0x04);
}

#[test]
fn trigger_sets_the_channels_bit() {
    let mut dmac = fresh_dmac();
    dmac.trigger(Channel::Channel0);
    assert_eq!(dmac.swtrigctrl, 0x001);
    dmac.trigger(Channel::Channel11);
    assert_eq!(dmac.swtrigctrl, 0x800);
}

#[test]
fn interrupt_acknowledges_pending_channels() {
    let mut dmac = fresh_dmac();
    dmac.intstatus = (1 << 0) | (1 << 2);
    dmac.chintflag[0] = 0x07;
    dmac.chintflag[1] = 0x05;
    dmac.chintflag[2] = 0x03;

    dmac.interrupt();

    // Pending channels acknowledged, the idle one untouched.
    assert_eq!(dmac.chintflag[0], 0);
    assert_eq!(dmac.chintflag[1], 0x05);
    assert_eq!(dmac.chintflag[2], 0);
    // The dispatch leaves the highest pending channel selected.
    assert_eq!(dmac.chid, 2);
}

#[test]
fn interrupt_with_nothing_pending_changes_nothing() {
    let mut dmac = fresh_dmac();
    dmac.chid = 7;
    dmac.chintflag[3] = 0x06;

    dmac.interrupt();

    assert_eq!(dmac.chid, 7);
    assert_eq!(dmac.chintflag[3], 0x06);
}

#[test]
fn event_identities_for_low_channels() {
    assert_eq!(Channel::Channel0.event_generator(), Generator::DmacCh0);
    assert_eq!(Channel::Channel3.event_generator(), Generator::DmacCh3);
    assert_eq!(Channel::Channel1.event_user(), User::DmacCh1);
    assert_eq!(Channel::Channel2.event_user(), User::DmacCh2);
}

#[test]
fn trigger_source_codes_match_the_part() {
    assert_eq!(TriggerSource::Software.code(), 0x00);
    assert_eq!(TriggerSource::Sercom0Rx.code(), 0x01);
    assert_eq!(TriggerSource::Sercom5Tx.code(), 0x0c);
    assert_eq!(TriggerSource::Tc3Ovf.code(), 0x18);
    assert_eq!(TriggerSource::Tc4Ovf.code(), 0x1b);
    assert_eq!(TriggerSource::AdcResultReady.code(), 0x27);
}

#[test]
fn descriptor_builders_encode_each_pattern() {
    // Word fill: destination steps, source fixed, word beats.
    let d = Descriptor::memset_u32_pattern1(0x100, 0x200, 4);
    assert_eq!(d.btctrl.0, 0x0a01);
    assert_eq!(d.btcnt, 4);
    assert_eq!(d.srcaddr, 0x100);
    assert_eq!(d.dstaddr, 0x200 + 16);
    assert_eq!(d.descaddr, 0);

    // Half-word fill.
    let d = Descriptor::memset_u16_pattern1(0x100, 0x200, 4);
    assert_eq!(d.btctrl.0, 0x0901);
    assert_eq!(d.dstaddr, 0x200 + 8);

    // Byte fill.
    let d = Descriptor::memset_u8_pattern1(0x100, 0x200, 4);
    assert_eq!(d.btctrl.0, 0x0801);
    assert_eq!(d.dstaddr, 0x200 + 4);

    // Memory to a fixed peripheral register: source steps.
    let d = Descriptor::memcpy_u8_peripheral(0x100, 0x4200_0028, 9);
    assert_eq!(d.btctrl.0, 0x1401);
    assert_eq!(d.srcaddr, 0x100 + 9);
    assert_eq!(d.dstaddr, 0x4200_0028);

    // Bulk copy: both sides step.
    let d = Descriptor::memcpy_u8(0x100, 0x200, 9);
    assert_eq!(d.btctrl.0, 0x1c01);
    assert_eq!(d.srcaddr, 0x100 + 9);
    assert_eq!(d.dstaddr, 0x200 + 9);
}

#[test]
fn default_descriptor_is_invalid() {
    let d = descriptor::default();
    assert_eq!(d.btctrl.0, 0);
    assert_eq!(d.btcnt, 0);
    assert_eq!(d.srcaddr, 0);
    assert_eq!(d.dstaddr, 0);
    assert_eq!(d.descaddr, 0);
    assert!(!d.btctrl.valid());
}

#[test]
fn control_word_fields_round_trip() {
    let mut w = Btctrl(0);
    w.set_stepsel(Stepsel::StepSrc);
    assert_eq!(w.stepsel(), Stepsel::StepSrc);
    w.set_stepsel(Stepsel::StepDst);
    assert_eq!(w.stepsel(), Stepsel::StepDst);

    w.set_valid(true);
    assert!(w.valid());
    w.set_dstinc(true);
    assert!(w.dstinc());
    w.set_srcinc(true);
    assert!(w.srcinc());
    w.set_beatsize(Beatsize::Word);
    assert_eq!(w.beatsize(), Beatsize::Word);
    w.set_blockact(BlockAction::ChannelSuspend);
    assert_eq!(w.blockact(), BlockAction::ChannelSuspend);
    w.set_evosel(EventOutputAction::Beat);
    assert_eq!(w.evosel(), EventOutputAction::Beat);
    w.set_stepsize(Stepsize::X16);
    assert_eq!(w.stepsize(), Stepsize::X16);

    // Setting one field leaves the others alone.
    assert!(w.valid());
    assert!(w.dstinc());
    assert_eq!(w.beatsize(), Beatsize::Word);
}

#[test]
fn control_word_of_a_builder_decodes() {
    let d = Descriptor::memset_u32_pattern1(0x100, 0x200, 1);
    let ctrl = d.btctrl;
    assert!(ctrl.valid());
    assert!(ctrl.dstinc());
    assert!(!ctrl.srcinc());
    assert_eq!(ctrl.stepsel(), Stepsel::StepDst);
    assert_eq!(ctrl.stepsize(), Stepsize::X1);
    assert_eq!(ctrl.beatsize(), Beatsize::Word);
    assert_eq!(ctrl.blockact(), BlockAction::NoAct);
    assert_eq!(ctrl.evosel(), EventOutputAction::Disable);
}
