use samd_hal::registers::ccbuf_dith4;
use samd_hal::registers::ctrlb;
use samd_hal::registers::dbgctrl;
use samd_hal::registers::prescbuf;
use samd_hal::registers::prescbuf::{Variant, PRESCBUF_A};
use samd_hal::uart::{baud_params, Status, Uart, UsartRegs};
use samd_hal::WouldBlock;

#[test]
fn ctrlb_writer_assembles_fields() {
    let w = ctrlb::W::reset().smen().set_bit().gcmd().set_bit();
    assert_eq!(w.bits, 0x0000_0300);

    let w = w.gcmd().clear_bit();
    assert_eq!(w.bits, 0x0000_0100);

    let w = w.aacken().bit(true).ackact().set_bit();
    assert_eq!(w.bits, 0x0004_0500);

    let w = w.amode().bits(0x02).cmd().bits(0x03);
    assert_eq!(w.bits, 0x0007_8500);

    // Field writers mask out-of-range values.
    let w = ctrlb::W::reset().amode().bits(0xff);
    assert_eq!(w.bits, 0x0000_c000);
}

#[test]
fn ctrlb_reader_decodes_fields() {
    let r = ctrlb::R::new((1 << 8) | (1 << 10) | (2 << 14) | (1 << 18));
    assert_eq!(r.bits(), (1 << 8) | (1 << 10) | (2 << 14) | (1 << 18));
    assert!(r.smen());
    assert!(!r.gcmd());
    assert!(r.aacken());
    assert_eq!(r.amode(), 2);
    assert!(r.ackact());
}

#[test]
fn dbgctrl_round_trips_its_bit() {
    let w = dbgctrl::W::reset().dbgrun().set_bit();
    assert_eq!(w.bits, 0x01);
    let w = w.dbgrun().clear_bit();
    assert_eq!(w.bits, 0x00);
    let w = w.dbgrun().bit(true);
    assert_eq!(w.bits, 0x01);

    assert!(dbgctrl::R::new(0x01).dbgrun());
    assert!(!dbgctrl::R::new(0xfe).dbgrun());
}

#[test]
fn prescbuf_writer_selects_factors() {
    let w = prescbuf::W::reset().prescbuf().div512();
    assert_eq!(w.bits, 9);
    let w = w.prescbuf().div1024();
    assert_eq!(w.bits, 10);
    let w = w.prescbuf().variant(PRESCBUF_A::DIV4);
    assert_eq!(w.bits, 2);
    // The raw writer masks to the field's four bits.
    let w = w.prescbuf().bits(0xf7);
    assert_eq!(w.bits, 0x07);
}

#[test]
fn prescbuf_reader_decodes_variants() {
    let field = prescbuf::R::new(0x05).prescbuf();
    assert!(field.is_div32());
    assert!(!field.is_div1());
    assert_eq!(field.variant(), Variant::Val(PRESCBUF_A::DIV32));

    assert_eq!(PRESCBUF_A::DIV1024.value(), 10);

    // Reserved encodings are carried through raw.
    let reserved = prescbuf::R::new(0x0c).prescbuf();
    assert_eq!(reserved.variant(), Variant::Res(12));
    assert!(!reserved.is_div1024());

    // The register reader masks the field out of the captured byte.
    let field = prescbuf::R::new(0xf0).prescbuf();
    assert!(field.is_div1());
    assert_eq!(field.variant(), Variant::Val(PRESCBUF_A::DIV1));
}

#[test]
fn ccbuf_fields_mask_and_shift() {
    let w = ccbuf_dith4::W::reset().ccbuf().bits(0x000f_ffff);
    assert_eq!(w.bits, 0x00ff_fff0);
    // Out-of-range compare values are masked to the field.
    let w = ccbuf_dith4::W::reset().ccbuf().bits(0xfff0_0001);
    assert_eq!(w.bits, 0x0000_0010);

    let w = w.ditherbuf().bits(0x35);
    assert_eq!(w.bits, 0x0000_0015);

    let r = ccbuf_dith4::R::new(0x0012_3456);
    assert_eq!(r.ccbuf(), 0x0001_2345);
    assert_eq!(r.ditherbuf(), 0x06);
}

#[test]
fn uart_status_decodes_bits() {
    let status = Status::from_bits(0b10_0101);
    assert!(status.parity_error);
    assert!(!status.frame_error);
    assert!(status.buffer_overflow);
    assert!(!status.clear_to_send);
    assert!(!status.inconsistent_sync);
    assert!(status.collision);
}

#[test]
fn uart_moves_bytes_through_the_data_register() {
    let mut uart = Uart { sercom: UsartRegs { intflag: 0, status: 0, data: 0 } };

    // Register still full: writes and flushes would block.
    assert_eq!(uart.write(0x41), Err(WouldBlock));
    assert_eq!(uart.flush(), Err(WouldBlock));

    // Hardware reports the register empty.
    uart.sercom.intflag = 1 << 0;
    assert_eq!(uart.write(0x41), Ok(()));
    assert_eq!(uart.sercom.data, 0x41);
    assert_eq!(uart.flush(), Ok(()));

    // Nothing received yet.
    assert!(!uart.has_data());
    assert_eq!(uart.read(), Err(WouldBlock));

    // A character arrives.
    uart.sercom.data = 0x1a7;
    uart.sercom.intflag |= 1 << 2;
    assert!(uart.has_data());
    assert_eq!(uart.read(), Ok(0xa7));
}

#[test]
fn uart_error_and_status_handling() {
    let mut uart = Uart { sercom: UsartRegs { intflag: 1 << 7, status: 0b10_0110, data: 0 } };

    assert!(uart.has_error());
    let status = uart.status();
    assert!(status.frame_error);
    assert!(status.buffer_overflow);
    assert!(status.collision);
    assert!(!status.parity_error);

    uart.clear_frame_error();
    assert_eq!(uart.sercom.status, 0b10_0100);

    uart.clear_status();
    assert_eq!(uart.sercom.status, 0);

    uart.clear_error();
    assert!(!uart.has_error());
}

#[test]
fn uart_baud_arithmetic() {
    // 115200 baud from 48 MHz: the eightfold value is 208, a whole number
    // of eighths.
    assert_eq!(baud_params(48_000_000, 115_200), (26, 0));
    // 19200 baud from 48 MHz: 1250 eighths, so 156 whole with 2 eighths.
    assert_eq!(baud_params(48_000_000, 19_200), (156, 2));
}
