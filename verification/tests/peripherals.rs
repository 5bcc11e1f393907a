use samd_hal::adc::{InternalTemp, ADC};
use samd_hal::eic::{ExtInt, Sense, EIC};
use samd_hal::event_counter::EventCounter;
use samd_hal::pm::PM;
use samd_hal::rtc::{RtcRegs, RTC};
use samd_hal::tc::{Count16Regs, Prescaler};
use samd_hal::timeout::Timeout;
use samd_hal::timer::{TimerCounter, TimerParams};
use samd_hal::{reset_cause, ResetCause, WouldBlock};

#[test]
fn reset_cause_decodes_each_bit() {
    assert_eq!(ResetCause::from_bits(1), ResetCause::POR);
    assert_eq!(ResetCause::from_bits(2), ResetCause::BOD12);
    assert_eq!(ResetCause::from_bits(4), ResetCause::BOD33);
    assert_eq!(ResetCause::from_bits(16), ResetCause::External);
    assert_eq!(ResetCause::from_bits(32), ResetCause::Watchdog);
    assert_eq!(ResetCause::from_bits(64), ResetCause::System);
    assert_eq!(ResetCause::from_bits(3), ResetCause::Unknown);
    assert_eq!(ResetCause::from_bits(0), ResetCause::Unknown);

    let mut pm = PM::new();
    pm.rcause = 16;
    assert_eq!(reset_cause(&pm), ResetCause::External);
}

#[test]
fn timer_params_small_period_uses_no_division() {
    let params = TimerParams::new(1000, 1_000_000);
    assert_eq!(params.divider, 1);
    assert_eq!(params.cycles, 1000);
}

#[test]
fn timer_params_large_period_divides_down() {
    // One second at 48 MHz: 48e6 ticks need the full 1024 divider.
    let params = TimerParams::new(1, 48_000_000);
    assert_eq!(params.divider, 1024);
    assert_eq!(params.cycles, 46_875);
}

#[test]
fn timer_params_gap_rounds_up_to_supported_divider() {
    // 1.5e6 ticks would want a divider of 32, which the hardware lacks; the
    // next supported divider is 64.
    let params = TimerParams::new(1, 1_500_000);
    assert_eq!(params.divider, 64);
    assert_eq!(params.cycles, 1_500_000 / 64);
}

#[test]
fn timer_params_checked_rejects_overflow() {
    // Even divided by 1024, the full u32 tick count overflows the 16-bit
    // counter.
    assert!(TimerParams::checked_new(1, u32::MAX).is_none());

    let params = TimerParams::checked_new(1, 48_000_000).expect("fits the counter");
    assert_eq!(params.divider, 1024);
    assert_eq!(params.cycles, 46_875);
}

#[test]
fn timer_start_programs_the_counter() {
    let mut pm = PM::new();
    let mut timer = TimerCounter::new(1_000_000, Count16Regs::reset(), &mut pm, 1 << 11);
    assert_eq!(pm.apbcmask, 1 << 11);

    timer.start(1000);
    // Top value of 1000 at divider 1: match-frequency mode, run in standby,
    // enabled.
    assert_eq!(timer.tc.cc0, 1000);
    assert_eq!(timer.tc.ctrla, 0x0822);
    assert_eq!(timer.tc.count, 0);
}

#[test]
fn timer_start_with_divider_sets_prescaler_field() {
    let mut pm = PM::new();
    let mut timer = TimerCounter::new(48_000_000, Count16Regs::reset(), &mut pm, 1 << 11);
    timer.start_(TimerParams { divider: 8, cycles: 100 });
    // Prescaler code 3 in bits 8-10.
    assert_eq!(timer.tc.ctrla, 0x0b22);
    assert_eq!(timer.tc.cc0, 100);
}

#[test]
fn timer_wait_reports_and_acknowledges_overflow() {
    let mut pm = PM::new();
    let mut timer = TimerCounter::new(1_000_000, Count16Regs::reset(), &mut pm, 1 << 11);

    assert_eq!(timer.wait(), Err(WouldBlock));

    // Hardware raises the overflow flag.
    timer.tc.intflag = 0x01;
    assert_eq!(timer.wait(), Ok(()));
    assert_eq!(timer.tc.intflag, 0);
    assert_eq!(timer.wait(), Err(WouldBlock));
}

#[test]
fn timer_interrupt_controls() {
    let mut pm = PM::new();
    let mut timer = TimerCounter::new(1_000_000, Count16Regs::reset(), &mut pm, 1 << 11);

    timer.enable_interrupt();
    assert_eq!(timer.tc.int_enabled, 0x01);
    timer.disable_interrupt();
    assert_eq!(timer.tc.int_enabled, 0);

    timer.tc.intflag = 0x01;
    timer.clear_interrupt();
    assert_eq!(timer.tc.intflag, 0);

    timer.enable_overflow_event();
    assert_eq!(timer.tc.evctrl, 1 << 8);
}

#[test]
fn timeout_configures_retriggerable_countdown() {
    let mut pm = PM::new();
    let mut timeout = Timeout::new(Count16Regs::reset(), Prescaler::Div2, 500, &mut pm, 1 << 12);
    assert_eq!(pm.apbcmask, 1 << 12);

    // Input events retrigger (action code 1), counting down one-shot from
    // 500 at the half-rate clock.
    assert_eq!(timeout.tc.evctrl, 0x21);
    assert_eq!(timeout.tc.cc0, 500);
    assert_eq!(timeout.tc.count, 500);
    assert_eq!(timeout.tc.ctrlb, 0x05);
    assert_eq!(timeout.tc.ctrla, 0x0922);

    timeout.retrigger();
    assert_eq!(timeout.tc.ctrlb, 0x45);

    timeout.enable_overflow_interrupt();
    assert_eq!(timeout.tc.int_enabled, 0x01);
    timeout.diable_overflow_interrupt();
    assert_eq!(timeout.tc.int_enabled, 0);

    timeout.tc.intflag = 0x01;
    timeout.clear_overflow_interrupt();
    assert_eq!(timeout.tc.intflag, 0);

    timeout.enable_overflow_event();
    assert_eq!(timeout.tc.evctrl, 0x21 | (1 << 8));

    timeout.tc.count = 123;
    assert_eq!(timeout.count(), 123);
    timeout.clear();
    assert_eq!(timeout.count(), 0);
}

#[test]
fn event_counter_counts_input_events() {
    let mut pm = PM::new();
    let mut counter = EventCounter::new(Count16Regs::reset(), 999, &mut pm, 1 << 13);
    assert_eq!(pm.apbcmask, 1 << 13);

    // Input events count (action code 2), wrapping at the programmed top.
    assert_eq!(counter.tc.evctrl, 0x22);
    assert_eq!(counter.tc.cc0, 999);
    assert_eq!(counter.tc.ctrla, 0x0822);

    counter.enable_overflow_interrupt();
    assert_eq!(counter.tc.int_enabled, 0x01);
    counter.diable_overflow_interrupt();
    assert_eq!(counter.tc.int_enabled, 0);

    counter.tc.intflag = 0x01;
    counter.clear_overflow_interrupt();
    assert_eq!(counter.tc.intflag, 0);

    counter.enable_overflow_event();
    assert_eq!(counter.tc.evctrl, 0x22 | (1 << 8));

    counter.tc.count = 7;
    assert_eq!(counter.count(), 7);
    counter.clear();
    assert_eq!(counter.count(), 0);
}

#[test]
fn rtc_periods_program_compare_values() {
    let mut pm = PM::new();
    let five = RTC::five_minutes(&mut pm, 32_000, RtcRegs::reset());
    assert_eq!(five.rtc.comp0, 9_600);
    // Match-clear, divide-by-1024, enabled.
    assert_eq!(five.rtc.ctrl, 0x0a82);
    assert_eq!(five.rtc.int_enabled, 0x01);
    assert_eq!(pm.apbamask, 1 << 5);

    let ten = RTC::ten_seconds(&mut pm, 32_000, RtcRegs::reset());
    assert_eq!(ten.rtc.comp0, 312);

    let mut rtc = ten;
    rtc.rtc.intflag = 0x01;
    rtc.clear_interrupt();
    assert_eq!(rtc.rtc.intflag, 0);
}

#[test]
fn adc_init_configures_and_discards_first_conversion() {
    let mut pm = PM::new();
    let adc = ADC::init(&mut pm, 0xab, 0x05);

    assert_eq!(pm.apbcmask, 1 << 16);
    assert_eq!(adc.adc.calib, 0x05ab);
    // Enabled, running in standby.
    assert_eq!(adc.adc.ctrla, 0x06);
    // Divide-by-512 prescaler, 10-bit resolution.
    assert_eq!(adc.adc.ctrlb, 0x0720);
    assert_eq!(adc.adc.sampctrl, 0x3f);
    // Ground negative input, half gain, temperature sensor selected by the
    // throwaway first conversion.
    assert_eq!(adc.adc.inputctrl, 0x0f00_1818);
    assert_eq!(adc.adc.refctrl, 0x02);
    assert_eq!(adc.adc.swtrig, 0x02);
    assert_eq!(adc.adc.intflag, 0);
}

#[test]
fn adc_polls_for_results() {
    let mut pm = PM::new();
    let mut adc = ADC::init(&mut pm, 0, 0);

    assert_eq!(adc.wait(), Err(WouldBlock));

    // Hardware completes a conversion.
    adc.adc.result = 0x2a7;
    adc.adc.intflag = 0x01;
    assert_eq!(adc.wait(), Ok(0x2a7));
    assert_eq!(adc.result(), 0x2a7);

    adc.clear_ready_interrupt();
    assert_eq!(adc.adc.intflag, 0);

    adc.enable_ready_interrupt();
    assert_eq!(adc.adc.int_enabled, 0x01);

    adc.enable_start_conversion_event();
    assert_eq!(adc.adc.evctrl, 0x01);

    let mut temp = InternalTemp;
    adc.adc.inputctrl = 0;
    adc.set_input(&mut temp);
    assert_eq!(adc.adc.inputctrl, 0x18);

    adc.start(&mut temp);
    assert_eq!(adc.adc.swtrig, 0x02);
}

#[test]
fn eic_line_configuration_lands_in_the_right_group() {
    let mut eic = EIC::new();

    // Line 9 lives in the second configuration register, group 1.
    let mut line9 = ExtInt::new(9);
    line9.sense(&mut eic, Sense::Fall);
    assert_eq!(eic.config[1], 0x0000_0020);
    line9.filter(&mut eic, true);
    assert_eq!(eic.config[1], 0x0000_00a0);
    line9.filter(&mut eic, false);
    assert_eq!(eic.config[1], 0x0000_0020);

    // Line 3 lives in the first configuration register, group 3.
    let mut line3 = ExtInt::new(3);
    line3.sense(&mut eic, Sense::Rise);
    assert_eq!(eic.config[0], 0x0000_1000);
    line3.sense(&mut eic, Sense::High);
    assert_eq!(eic.config[0], 0x0000_4000);

    line3.enable_event(&mut eic);
    assert_eq!(eic.evctrl, 1 << 3);
    line3.enable_interrupt(&mut eic);
    assert_eq!(eic.int_enabled, 1 << 3);
    line3.enable_interrupt_wake(&mut eic);
    assert_eq!(eic.wakeup, 1 << 3);
    line3.disable_interrupt(&mut eic);
    assert_eq!(eic.int_enabled, 0);

    eic.intflag = 1 << 3;
    assert!(line3.is_interrupt(&eic));
    line3.clear_interrupt(&mut eic);
    assert_eq!(eic.intflag, 0);
    assert!(!line3.is_interrupt(&eic));
}
