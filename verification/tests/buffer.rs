use samd_hal::dmac::buffer::{Buffer, ConfigError};
use samd_hal::dmac::channel::Channel;
use samd_hal::dmac::descriptor::Descriptor;
use samd_hal::dmac::serial::Serial;
use samd_hal::dmac::DMAC;
use samd_hal::pm::PM;

const DATA_ADDR: u32 = 0x2000_1000;
const DESC_ADDR: u32 = 0x2000_2000;
const BASE_TABLE: u32 = 0x2000_0000;
const WRB_TABLE: u32 = 0x2000_0200;
const PERIPHERAL: u32 = 0x4200_0028;

fn fresh_dmac() -> DMAC {
    let mut pm = PM::new();
    DMAC::init(&mut pm, BASE_TABLE, WRB_TABLE)
}

fn rx_descriptor(dst: u32, count: u16, next: u32) -> Descriptor {
    let mut d = Descriptor::memset_u8_pattern1(PERIPHERAL, dst, count);
    d.descaddr = next;
    d
}

#[test]
fn configure_succeeds_exactly_once() {
    let mut dmac = fresh_dmac();
    let mut buf = Buffer::new(2, 4);
    assert!(buf.check_invariant());

    let first = buf.configure(&mut dmac, Channel::Channel0, DATA_ADDR, DESC_ADDR, rx_descriptor);
    assert!(first.is_ok());
    assert!(buf.check_invariant());

    let second = buf.configure(&mut dmac, Channel::Channel1, DATA_ADDR, DESC_ADDR, rx_descriptor);
    assert!(matches!(second, Err(ConfigError::AlreadyConfigured)));
}

#[test]
fn configure_detects_claimed_channel() {
    let mut dmac = fresh_dmac();
    let mut one = Buffer::new(2, 4);
    let mut other = Buffer::new(2, 4);

    let first = one.configure(&mut dmac, Channel::Channel3, DATA_ADDR, DESC_ADDR, rx_descriptor);
    assert!(first.is_ok());

    let second =
        other.configure(&mut dmac, Channel::Channel3, DATA_ADDR, DESC_ADDR, rx_descriptor);
    assert!(matches!(second, Err(ConfigError::ChannelInUse)));

    // A different channel is still free.
    let third = other.configure(&mut dmac, Channel::Channel4, DATA_ADDR, DESC_ADDR, rx_descriptor);
    assert!(third.is_ok());
}

#[test]
fn configure_builds_closed_ring() {
    let mut dmac = fresh_dmac();
    let mut buf = Buffer::new(3, 8);

    buf.configure(&mut dmac, Channel::Channel2, DATA_ADDR, DESC_ADDR, rx_descriptor)
        .ok()
        .expect("channel was free");

    // The channel's base slot holds block 0's descriptor, pointing at the
    // first private slot.
    let base_slot = 2usize;
    let d0 = dmac.base_descriptors[base_slot];
    assert_eq!(d0.btcnt, 8);
    assert_eq!(d0.dstaddr, DATA_ADDR + 8);
    assert_eq!(d0.srcaddr, PERIPHERAL);
    assert_eq!(d0.descaddr, DESC_ADDR);

    // Private slot 0 holds block 1's descriptor, pointing at private slot 1.
    assert_eq!(buf.descriptors.len(), 2);
    let d1 = buf.descriptors[0];
    assert_eq!(d1.dstaddr, DATA_ADDR + 8 + 8);
    assert_eq!(d1.descaddr, DESC_ADDR + 16);

    // The last descriptor loops back to the channel's base-table slot.
    let d2 = buf.descriptors[1];
    assert_eq!(d2.dstaddr, DATA_ADDR + 3 * 8);
    assert_eq!(d2.descaddr, BASE_TABLE + 16 * 2);

    // The claimed-slot bitmap records the configuration.
    assert_eq!(dmac.claimed, 1 << 2);

    // Other channels' slots are untouched, still the invalid descriptor.
    assert_eq!(dmac.base_descriptors[0].btcnt, 0);
    assert_eq!(dmac.base_descriptors[0].btctrl.0, 0);
}

#[test]
fn full_block_appears_and_drains() {
    // Four blocks of eight bytes: one completed block grants [0, 8); after
    // releasing all of it the buffer reads empty.
    let mut dmac = fresh_dmac();
    let mut buf = Buffer::new(4, 8);
    let (producer, consumer) = buf
        .configure(&mut dmac, Channel::Channel0, DATA_ADDR, DESC_ADDR, rx_descriptor)
        .ok()
        .expect("channel was free");

    producer.notify_descriptor(&mut buf);
    assert!(buf.check_invariant());
    assert_eq!(buf.write, 8);
    assert_eq!(buf.write_block, 8);

    let grant = consumer.read(&buf);
    assert_eq!(grant.offset, 0);
    assert_eq!(grant.len, 8);
    assert_eq!(grant.as_slice(&buf).len(), 8);
    assert_eq!(grant.as_slice(&buf), &[0u8; 8][..]);
    grant.release(&mut buf, 8);
    assert!(buf.check_invariant());

    let empty = consumer.read(&buf);
    assert_eq!(empty.len, 0);
}

#[test]
fn partial_notifications_accumulate() {
    // Two blocks of sixteen bytes: reporting twelve bytes remaining means
    // four produced; a following eight-remaining report adds four more, and
    // a read then exposes exactly eight bytes.
    let mut dmac = fresh_dmac();
    let mut buf = Buffer::new(2, 16);
    let (producer, consumer) = buf
        .configure(&mut dmac, Channel::Channel0, DATA_ADDR, DESC_ADDR, rx_descriptor)
        .ok()
        .expect("channel was free");

    producer.notify_descriptor_partial(&mut buf, 12);
    assert!(buf.check_invariant());
    assert_eq!(buf.write, 4);

    producer.notify_descriptor_partial(&mut buf, 8);
    assert!(buf.check_invariant());
    assert_eq!(buf.write, 8);

    let grant = consumer.read(&buf);
    assert_eq!(grant.offset, 0);
    assert_eq!(grant.len, 8);
}

#[test]
fn wrapped_write_grants_tail_then_head() {
    // Two blocks of four bytes. Once the write cursor wraps behind the read
    // cursor, a read returns only the tail up to the buffer end; after
    // releasing that tail, the next read starts at zero.
    let mut dmac = fresh_dmac();
    let mut buf = Buffer::new(2, 4);
    let (producer, consumer) = buf
        .configure(&mut dmac, Channel::Channel0, DATA_ADDR, DESC_ADDR, rx_descriptor)
        .ok()
        .expect("channel was free");

    producer.notify_descriptor(&mut buf);
    let grant = consumer.read(&buf);
    assert_eq!((grant.offset, grant.len), (0, 4));
    grant.release(&mut buf, 4);
    assert_eq!(buf.read, 4);

    // The second block completes: the write cursor wraps to zero, behind
    // the read cursor.
    producer.notify_descriptor(&mut buf);
    assert!(buf.check_invariant());
    assert_eq!(buf.write, 0);
    assert_eq!(buf.write_block, 0);

    // Two bytes of the freshly filling block become visible.
    producer.notify_descriptor_partial(&mut buf, 2);
    assert_eq!(buf.write, 2);

    // Tail segment [read, capacity) first.
    let tail = consumer.read(&buf);
    assert_eq!((tail.offset, tail.len), (4, 4));
    tail.release(&mut buf, 4);
    assert_eq!(buf.read, 0);

    // Then the head segment [0, write).
    let head = consumer.read(&buf);
    assert_eq!((head.offset, head.len), (0, 2));
}

#[test]
fn partial_release_keeps_remainder() {
    // Releasing less than the granted length leaves the difference visible
    // on the next read.
    let mut dmac = fresh_dmac();
    let mut buf = Buffer::new(1, 8);
    let (producer, consumer) = buf
        .configure(&mut dmac, Channel::Channel0, DATA_ADDR, DESC_ADDR, rx_descriptor)
        .ok()
        .expect("channel was free");

    producer.notify_descriptor_partial(&mut buf, 4);
    let grant = consumer.read(&buf);
    assert_eq!(grant.len, 4);
    grant.release(&mut buf, 1);
    assert!(buf.check_invariant());

    let rest = consumer.read(&buf);
    assert_eq!((rest.offset, rest.len), (1, 3));
}

#[test]
fn release_caps_at_grant_length() {
    let mut dmac = fresh_dmac();
    let mut buf = Buffer::new(2, 4);
    let (producer, consumer) = buf
        .configure(&mut dmac, Channel::Channel0, DATA_ADDR, DESC_ADDR, rx_descriptor)
        .ok()
        .expect("channel was free");

    producer.notify_descriptor(&mut buf);
    let grant = consumer.read(&buf);
    assert_eq!(grant.len, 4);
    // Asking to release more than was granted consumes the grant only.
    grant.release(&mut buf, 100);
    assert_eq!(buf.read, 4);
    assert!(buf.check_invariant());
}

#[test]
fn exact_lap_reads_as_empty() {
    // A write cursor that exactly laps the read cursor is indistinguishable
    // from an empty buffer under this design: a full buffer tests as empty.
    let mut dmac = fresh_dmac();
    let mut buf = Buffer::new(2, 4);
    let (producer, consumer) = buf
        .configure(&mut dmac, Channel::Channel0, DATA_ADDR, DESC_ADDR, rx_descriptor)
        .ok()
        .expect("channel was free");

    // Both blocks complete without any consumption: eight bytes were
    // produced and the write cursor sits on the read cursor again.
    producer.notify_descriptor(&mut buf);
    producer.notify_descriptor(&mut buf);
    assert!(buf.check_invariant());
    assert_eq!(buf.write, buf.read);

    let grant = consumer.read(&buf);
    assert_eq!(grant.len, 0);
    grant.release(&mut buf, 0);
    assert_eq!(buf.read, 0);
}

#[test]
fn serial_reader_pulls_single_bytes() {
    let mut dmac = fresh_dmac();
    let mut buf = Buffer::new(2, 4);
    let (producer, consumer) = buf
        .configure(&mut dmac, Channel::Channel0, DATA_ADDR, DESC_ADDR, rx_descriptor)
        .ok()
        .expect("channel was free");
    let serial = Serial::new(consumer);

    // Nothing buffered yet: the read would block.
    assert_eq!(serial.read(&mut buf), None);
    assert_eq!(buf.read, 0);

    // One byte arrives (three of the four block bytes still pending).
    producer.notify_descriptor_partial(&mut buf, 3);
    assert_eq!(serial.read(&mut buf), Some(0));
    assert_eq!(buf.read, 1);

    // Drained again.
    assert_eq!(serial.read(&mut buf), None);
}
