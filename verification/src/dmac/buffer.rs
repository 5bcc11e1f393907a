//! The circular streaming buffer: a fixed ring of equal-sized blocks backed
//! by a closed chain of transfer descriptors, with single-producer /
//! single-consumer cursors.
//!
//! The buffer holds `n_blocks` blocks of `block_size` bytes. Its descriptor
//! chain is closed: the first descriptor lives in the controller's base-table
//! slot for the channel, the remaining `n_blocks - 1` in the buffer's private
//! storage, and the last points back at the base slot. Three cursors walk the
//! backing store, all kept inside `[0, capacity)`: `write` counts the bytes
//! the engine has produced, `write_block` is the start offset of the block
//! being filled (always a multiple of the block size), and `read` is where
//! the consumer will next look.

use vstd::arithmetic::div_mod::{lemma_fundamental_div_mod, lemma_mod_multiples_vanish, lemma_small_mod};
use vstd::arithmetic::mul::{lemma_mul_inequality, lemma_mul_strict_inequality_converse};
use vstd::prelude::*;
use vstd::slice::slice_subrange;

use crate::dmac::channel::Channel;
use crate::dmac::descriptor::Descriptor;
use crate::dmac::{DESCRIPTOR_BYTES, DMAC, NUM_CHANNELS};

verus! {

/// Why a buffer refused to configure.
#[derive(Debug, Clone, Copy, PartialEq, Eq, Structural)]
pub enum ConfigError {
    /// This buffer's one-shot configured marker was already consumed.
    AlreadyConfigured,
    /// Another buffer already claimed the channel's table slot.
    ChannelInUse,
}

/// The buffer itself. After `configure` hands out the producer and consumer
/// tokens, the producer side mutates `write` and `write_block` from the
/// completion interrupt, and the consumer side reads through grants and
/// mutates `read` from the foreground.
pub struct Buffer {
    /// Number of blocks in the ring.
    pub n_blocks: usize,
    /// Bytes per block; fits the descriptor's 16-bit beat count.
    pub block_size: usize,
    /// Backing store of `n_blocks * block_size` bytes.
    pub data: Vec<u8>,
    /// Private descriptors for blocks 1 and up; the first block's descriptor
    /// lives in the controller's base table.
    pub descriptors: Vec<Descriptor>,
    /// One-shot marker: set once `configure` has built the ring.
    pub configured: bool,
    /// Start offset of the block currently being filled.
    pub write_block: usize,
    /// Bytes produced, modulo the capacity.
    pub write: usize,
    /// Bytes consumed, modulo the capacity.
    pub read: usize,
}

/// Exclusive token for the producer side of one buffer: notifying block
/// completion and partial progress. Only `configure` mints one, so the
/// single-producer discipline is structural.
pub struct Producer {
    _seal: (),
}

/// Exclusive token for the consumer side of one buffer: reading through
/// grants. Only `configure` mints one, so the single-consumer discipline is
/// structural.
pub struct Consumer {
    _seal: (),
}

/// A scoped read token: a contiguous, non-wrapping view of the bytes visible
/// at the time of the `read` call, to be released with the count actually
/// consumed.
pub struct GrantR {
    /// Offset of the first visible byte in the backing store.
    pub offset: usize,
    /// Number of visible bytes.
    pub len: usize,
}

/// The destination address the builder receives for block `b`.
pub open spec fn block_dst(data_addr: u32, x: int, b: int) -> int {
    data_addr + b * x
}

/// The address of the channel's slot in the base descriptor table.
pub open spec fn base_slot_addr(baseaddr: u32, ch: Channel) -> int {
    baseaddr + DESCRIPTOR_BYTES * ch.spec_index()
}

/// The next-descriptor address the builder receives for block `b`: the
/// private slot holding block `b + 1`'s descriptor, or, for the last block,
/// the channel's base-table slot, closing the ring.
pub open spec fn block_next(desc_addr: u32, base_slot: int, n: int, b: int) -> int {
    if b + 1 < n {
        desc_addr + DESCRIPTOR_BYTES * b
    } else {
        base_slot
    }
}

/// The full argument triple the builder receives for block `b`.
pub open spec fn block_args(
    data_addr: u32,
    desc_addr: u32,
    base_slot: int,
    n: int,
    x: int,
    b: int,
) -> (u32, u16, u32) {
    (
        block_dst(data_addr, x, b) as u32,
        x as u16,
        block_next(desc_addr, base_slot, n, b) as u32,
    )
}

/// Stepping one whole block forward from a block boundary lands on a block
/// boundary again, and leaves room for the new block unless it was the last.
proof fn lemma_block_advance(wb: int, x: int, cap: int)
    requires
        x >= 1,
        wb % x == 0,
        cap % x == 0,
        wb + x <= cap,
    ensures
        (wb + x) % x == 0,
        wb + x < cap ==> wb + 2 * x <= cap,
{
    let k = wb / x;
    lemma_fundamental_div_mod(wb, x);
    assert(wb == x * k);
    assert(wb + x == x * (k + 1)) by (nonlinear_arith)
        requires
            wb == x * k,
    ;
    lemma_mod_multiples_vanish(k + 1, 0, x);
    assert((x * (k + 1) + 0) % x == 0int % x);
    assert((wb + x) % x == 0);
    if wb + x < cap {
        let m = cap / x;
        lemma_fundamental_div_mod(cap, x);
        assert(cap == x * m);
        assert((k + 1) * x < m * x) by (nonlinear_arith)
            requires
                wb + x == x * (k + 1),
                cap == x * m,
                wb + x < cap,
        ;
        lemma_mul_strict_inequality_converse(k + 1, m, x);
        assert(k + 2 <= m);
        lemma_mul_inequality(k + 2, m, x);
        assert((k + 2) * x <= m * x);
        assert(wb + 2 * x <= cap) by (nonlinear_arith)
            requires
                wb == x * k,
                cap == x * m,
                (k + 2) * x <= m * x,
        ;
    }
}

impl Buffer {
    /// Total capacity in bytes.
    pub open spec fn cap(self) -> int {
        self.n_blocks * self.block_size
    }

    /// The cursor and dimension invariant: all three cursors stay inside
    /// `[0, capacity)`, the write cursor inside the block being filled, and
    /// the block start on a block boundary.
    pub open spec fn wf(self) -> bool {
        &&& 1 <= self.n_blocks
        &&& 1 <= self.block_size <= 0xffff
        &&& self.data.len() == self.cap()
        &&& self.write_block % self.block_size == 0
        &&& self.write_block + self.block_size <= self.cap()
        &&& self.write_block <= self.write < self.write_block + self.block_size
        &&& self.read < self.cap()
        &&& (self.configured ==> self.descriptors.len() == self.n_blocks - 1)
        &&& (!self.configured ==> self.descriptors.len() == 0)
    }

    /// Whether `configure` will still accept this buffer.
    pub open spec fn can_configure(self) -> bool {
        !self.configured
    }

    /// Whether `configure` accepts this buffer when the channel slot's
    /// availability is as given: exactly when the buffer's one-shot marker
    /// is unconsumed and the slot is free.
    pub open spec fn configure_accepts(self, channel_free: bool) -> bool {
        self.can_configure() && channel_free
    }

    /// How many bytes a grant taken now would expose: nothing when the write
    /// cursor sits on the read cursor, the span up to the write cursor when
    /// it is ahead, and only the tail up to the buffer end when it has
    /// wrapped behind.
    pub open spec fn visible_len(self) -> int {
        if self.write == self.read {
            0
        } else if self.write > self.read {
            self.write - self.read
        } else {
            self.cap() - self.read
        }
    }

    /// Where the block after the current one starts: back at zero past the
    /// buffer end.
    pub open spec fn next_block_start(self) -> int {
        if self.write_block + self.block_size >= self.cap() {
            0
        } else {
            self.write_block + self.block_size
        }
    }

    /// Reserve storage for exactly `n_blocks` blocks of `block_size` bytes;
    /// all cursors start at zero and the buffer is not yet configured.
    pub fn new(n_blocks: usize, block_size: usize) -> (b: Buffer)
        requires
            1 <= n_blocks,
            1 <= block_size <= 0xffff,
            n_blocks * block_size <= usize::MAX,
        ensures
            b.wf(),
            b.n_blocks == n_blocks,
            b.block_size == block_size,
            b.can_configure(),
            b.write == 0,
            b.write_block == 0,
            b.read == 0,
            forall|i: int| 0 <= i < b.data.len() ==> b.data[i] == 0,
    {
        proof {
            lemma_mul_inequality(1, n_blocks as int, block_size as int);
            lemma_small_mod(0nat, block_size as nat);
        }
        let total = n_blocks * block_size;
        let mut data: Vec<u8> = Vec::new();
        let mut i: usize = 0;
        while i < total
            invariant
                i <= total,
                data.len() == i,
                forall|j: int| 0 <= j < i ==> data[j] == 0,
            decreases total - i,
        {
            data.push(0);
            i = i + 1;
        }
        Buffer {
            n_blocks,
            block_size,
            data,
            descriptors: Vec::new(),
            configured: false,
            write_block: 0,
            write: 0,
            read: 0,
        }
    }

    /// The invariant, decided at run time, so that unverified callers can
    /// test it before relying on it.
    pub fn check_invariant(&self) -> (r: bool)
        ensures
            r == self.wf(),
    {
        if self.n_blocks < 1 || self.block_size < 1 || self.block_size > 0xffff {
            return false;
        }
        let total = match self.n_blocks.checked_mul(self.block_size) {
            Some(t) => t,
            None => {
                return false;
            },
        };
        if self.data.len() != total {
            return false;
        }
        if self.write_block % self.block_size != 0 {
            return false;
        }
        if self.block_size > total || self.write_block > total - self.block_size {
            return false;
        }
        if self.write < self.write_block || self.write >= self.write_block + self.block_size {
            return false;
        }
        if self.read >= total {
            return false;
        }
        if self.configured {
            self.descriptors.len() == self.n_blocks - 1
        } else {
            self.descriptors.len() == 0
        }
    }

    /// Build the closed descriptor ring for `channel` and hand out the
    /// producer/consumer pair.
    ///
    /// The builder `f` is invoked once per block with the block's start
    /// address in the backing store (whose hardware address is `data_addr`),
    /// the block size as a beat count, and the address of the next
    /// descriptor; `desc_addr` is the hardware address of the buffer's
    /// private descriptor storage. The first descriptor is installed in the
    /// controller's base-table slot, the rest in private storage, the last
    /// one pointing back at the base slot.
    ///
    /// Fails with `AlreadyConfigured` on a second invocation, and with
    /// `ChannelInUse` when another buffer holds the channel's slot; on
    /// failure nothing is changed.
    pub fn configure<F: Fn(u32, u16, u32) -> Descriptor>(
        &mut self,
        dmac: &mut DMAC,
        channel: Channel,
        data_addr: u32,
        desc_addr: u32,
        f: F,
    ) -> (r: Result<(Producer, Consumer), ConfigError>)
        requires
            old(self).wf(),
            old(dmac).wf(),
            data_addr + old(self).cap() <= u32::MAX,
            desc_addr + (old(self).n_blocks - 1) * DESCRIPTOR_BYTES <= u32::MAX,
            old(dmac).baseaddr + NUM_CHANNELS * DESCRIPTOR_BYTES <= u32::MAX,
            forall|b: int|
                0 <= b < old(self).n_blocks ==> call_requires(
                    f,
                    block_args(
                        data_addr,
                        desc_addr,
                        base_slot_addr(old(dmac).baseaddr, channel),
                        old(self).n_blocks as int,
                        old(self).block_size as int,
                        b,
                    ),
                ),
        ensures
            final(self).wf(),
            final(dmac).wf(),
            r is Ok <==> old(self).configure_accepts(!old(dmac).spec_channel_claimed(channel)),
            r == Err::<(Producer, Consumer), ConfigError>(ConfigError::AlreadyConfigured)
                <==> !old(self).can_configure(),
            r == Err::<(Producer, Consumer), ConfigError>(ConfigError::ChannelInUse) <==> (old(
                self,
            ).can_configure() && old(dmac).spec_channel_claimed(channel)),
            r is Err ==> *final(self) == *old(self) && *final(dmac) == *old(dmac),
            r is Ok ==> {
                let base_slot = base_slot_addr(old(dmac).baseaddr, channel);
                let n = old(self).n_blocks as int;
                let x = old(self).block_size as int;
                let ch = channel.spec_index() as int;
                &&& final(self).configured
                &&& final(self).n_blocks == old(self).n_blocks
                &&& final(self).block_size == old(self).block_size
                &&& final(self).data == old(self).data
                &&& final(self).write == old(self).write
                &&& final(self).write_block == old(self).write_block
                &&& final(self).read == old(self).read
                &&& final(self).descriptors.len() == n - 1
                &&& forall|j: int|
                    0 <= j < n - 1 ==> call_ensures(
                        f,
                        block_args(data_addr, desc_addr, base_slot, n, x, j + 1),
                        final(self).descriptors[j],
                    )
                &&& call_ensures(
                    f,
                    block_args(data_addr, desc_addr, base_slot, n, x, 0),
                    final(dmac).base_descriptors[ch],
                )
                &&& final(dmac).base_descriptors@ == old(dmac).base_descriptors@.update(
                    ch,
                    final(dmac).base_descriptors@[ch],
                )
                &&& final(dmac).claimed == old(dmac).claimed | (1u16 << (
                channel.spec_index() as u16))
                &&& final(dmac).ctrl == old(dmac).ctrl
                &&& final(dmac).dbgctrl == old(dmac).dbgctrl
                &&& final(dmac).baseaddr == old(dmac).baseaddr
                &&& final(dmac).wrbaddr == old(dmac).wrbaddr
                &&& final(dmac).chid == old(dmac).chid
                &&& final(dmac).swtrigctrl == old(dmac).swtrigctrl
                &&& final(dmac).intstatus == old(dmac).intstatus
                &&& final(dmac).chctrla == old(dmac).chctrla
                &&& final(dmac).chctrlb == old(dmac).chctrlb
                &&& final(dmac).chintenset == old(dmac).chintenset
                &&& final(dmac).chintflag == old(dmac).chintflag
                &&& final(dmac).writeback_descriptors == old(dmac).writeback_descriptors
            },
    {
        if self.configured {
            return Err(ConfigError::AlreadyConfigured);
        }
        if dmac.channel_claimed(channel) {
            return Err(ConfigError::ChannelInUse);
        }

        let ghost oself: Buffer = *self;
        let ghost odmac: DMAC = *dmac;

        let idx = channel.index();
        let n = self.n_blocks;
        let x16: u16 = self.block_size as u16;
        let base_slot: u32 = dmac.baseaddr + DESCRIPTOR_BYTES * (idx as u32);
        let ghost base_slot_spec: int = base_slot_addr(odmac.baseaddr, channel);

        // First descriptor, perhaps the only one: it goes in the channel's
        // base-table slot and points at the first private slot, or back at
        // the base slot when there is no other block.
        let first_next: u32 = if n == 1 {
            base_slot
        } else {
            desc_addr
        };
        proof {
            let args0 = block_args(
                data_addr,
                desc_addr,
                base_slot_spec,
                n as int,
                oself.block_size as int,
                0,
            );
            assert(call_requires(f, args0));
            assert(args0 == (data_addr, x16, first_next));
        }
        let d0 = f(data_addr, x16, first_next);
        dmac.base_descriptors[idx as usize] = d0;

        let mut j: usize = 0;
        while j < n - 1
            invariant
                j <= n - 1,
                1 <= n,
                n == oself.n_blocks,
                x16 == oself.block_size,
                1 <= oself.block_size <= 0xffff,
                oself.wf(),
                !oself.configured,
                odmac.wf(),
                data_addr + oself.cap() <= u32::MAX,
                desc_addr + (n - 1) * DESCRIPTOR_BYTES <= u32::MAX,
                odmac.baseaddr + NUM_CHANNELS * DESCRIPTOR_BYTES <= u32::MAX,
                base_slot == base_slot_addr(odmac.baseaddr, channel),
                forall|b: int|
                    0 <= b < n ==> call_requires(
                        f,
                        block_args(
                            data_addr,
                            desc_addr,
                            base_slot_addr(odmac.baseaddr, channel),
                            n as int,
                            oself.block_size as int,
                            b,
                        ),
                    ),
                *self == (Buffer { descriptors: self.descriptors, ..oself }),
                self.descriptors.len() == j,
                forall|k: int|
                    0 <= k < j ==> call_ensures(
                        f,
                        block_args(
                            data_addr,
                            desc_addr,
                            base_slot_addr(odmac.baseaddr, channel),
                            n as int,
                            oself.block_size as int,
                            k + 1,
                        ),
                        self.descriptors[k],
                    ),
                *dmac == (DMAC { base_descriptors: dmac.base_descriptors, ..odmac }),
                dmac.base_descriptors@ == odmac.base_descriptors@.update(
                    channel.spec_index() as int,
                    dmac.base_descriptors@[channel.spec_index() as int],
                ),
                call_ensures(
                    f,
                    block_args(
                        data_addr,
                        desc_addr,
                        base_slot_addr(odmac.baseaddr, channel),
                        n as int,
                        oself.block_size as int,
                        0,
                    ),
                    dmac.base_descriptors@[channel.spec_index() as int],
                ),
            decreases n - 1 - j,
        {
            proof {
                lemma_mul_inequality(j + 1 as int, n as int, oself.block_size as int);
            }
            let dst_off: usize = (j + 1) * self.block_size;
            let dst: u32 = data_addr + (dst_off as u32);

            let next: u32 = if j + 1 < n - 1 {
                desc_addr + DESCRIPTOR_BYTES * ((j + 1) as u32)
            } else {
                base_slot
            };

            proof {
                let argsb = block_args(
                    data_addr,
                    desc_addr,
                    base_slot_addr(odmac.baseaddr, channel),
                    n as int,
                    oself.block_size as int,
                    j + 1,
                );
                assert(call_requires(f, argsb));
                assert(argsb == (dst, x16, next));
            }
            let d = f(dst, x16, next);
            self.descriptors.push(d);
            j = j + 1;
        }

        self.configured = true;
        dmac.claimed = dmac.claimed | (1u16 << (idx as u16));

        Ok((Producer { _seal: () }, Consumer { _seal: () }))
    }
}

impl Producer {
    /// Advance the cursors past the in-progress block on its full
    /// completion: `write` and `write_block` both move to the next block's
    /// start, wrapping to zero past the buffer end. Must be invoked exactly
    /// once per completed block, in hardware completion order.
    pub fn notify_descriptor(&self, buf: &mut Buffer)
        requires
            old(buf).wf(),
        ensures
            final(buf).wf(),
            final(buf).write_block == old(buf).next_block_start(),
            final(buf).write == old(buf).next_block_start(),
            final(buf).read == old(buf).read,
            final(buf).data == old(buf).data,
            final(buf).descriptors == old(buf).descriptors,
            final(buf).configured == old(buf).configured,
            final(buf).n_blocks == old(buf).n_blocks,
            final(buf).block_size == old(buf).block_size,
    {
        proof {
            let n = buf.n_blocks as int;
            let x = buf.block_size as int;
            lemma_mod_multiples_vanish(n, 0, x);
            lemma_mul_inequality(1, n, x);
            lemma_small_mod(0nat, buf.block_size as nat);
            lemma_block_advance(buf.write_block as int, x, n * x);
        }
        // These are always aligned to whole blocks.
        let write_block_start = buf.write_block;
        let write_block_end = write_block_start + buf.block_size;

        let buf_len = buf.data.len();

        // The start of the next block to fill, back at the beginning past
        // the buffer end.
        let next_block = if write_block_end >= buf_len {
            0
        } else {
            write_block_end
        };

        buf.write_block = next_block;
        buf.write = next_block;
    }

    /// Record partial completion of the current block: the hardware reports
    /// `remaining` bytes left, so `write` advances by exactly the newly
    /// produced delta since the prior notification, never past the block
    /// boundary. May be invoked several times per block as bytes stream in.
    pub fn notify_descriptor_partial(&self, buf: &mut Buffer, remaining: u16)
        requires
            old(buf).wf(),
            1 <= remaining <= old(buf).block_size,
            old(buf).write - old(buf).write_block <= old(buf).block_size - remaining,
        ensures
            final(buf).wf(),
            final(buf).write == old(buf).write_block + (old(buf).block_size - remaining),
            final(buf).write_block == old(buf).write_block,
            final(buf).read == old(buf).read,
            final(buf).data == old(buf).data,
            final(buf).descriptors == old(buf).descriptors,
            final(buf).configured == old(buf).configured,
            final(buf).n_blocks == old(buf).n_blocks,
            final(buf).block_size == old(buf).block_size,
    {
        let written = buf.write;
        let already_written = written - buf.write_block;

        let newly_written = (buf.block_size - (remaining as usize)) - already_written;

        buf.write = written + newly_written;
    }
}

impl Consumer {
    /// Take a grant on the currently visible bytes as a contiguous,
    /// non-wrapping region: empty when the write cursor sits on the read
    /// cursor — a buffer filled to exactly lap the read cursor tests as
    /// empty — and only the tail up to the buffer end when the write cursor
    /// has wrapped behind the read cursor; call again after releasing to see
    /// the bytes past the wrap.
    pub fn read(&self, buf: &Buffer) -> (g: GrantR)
        requires
            buf.wf(),
        ensures
            g.offset == buf.read,
            g.len == buf.visible_len(),
    {
        let write = buf.write;
        let read = buf.read;

        if write == read {
            GrantR { offset: read, len: 0 }
        } else if write > read {
            GrantR { offset: read, len: write - read }
        } else {
            GrantR { offset: read, len: buf.data.len() - read }
        }
    }
}

impl GrantR {
    /// Whether this grant matches the buffer's current cursors: taken at the
    /// read cursor, over the bytes visible now.
    pub open spec fn wf_for(self, buf: Buffer) -> bool {
        &&& self.offset == buf.read
        &&& self.len == buf.visible_len()
    }

    /// The granted bytes themselves.
    pub fn as_slice<'a>(&self, buf: &'a Buffer) -> (s: &'a [u8])
        requires
            buf.wf(),
            self.wf_for(*buf),
        ensures
            s@ == buf.data@.subrange(self.offset as int, self.offset + self.len),
            s@.len() == self.len,
    {
        slice_subrange(buf.data.as_slice(), self.offset, self.offset + self.len)
    }

    /// Hand the grant back, consuming `used` bytes of it (anything beyond
    /// the grant's length counts as the whole grant): `read` advances by the
    /// consumed count and wraps to zero at the buffer end. Releasing fewer
    /// bytes than granted is a valid partial consumption; the rest reappears
    /// on the next read.
    pub fn release(self, buf: &mut Buffer, used: usize)
        requires
            old(buf).wf(),
            self.wf_for(*old(buf)),
        ensures
            final(buf).wf(),
            final(buf).read == ({
                let most = if used <= self.len {
                    used as int
                } else {
                    self.len as int
                };
                if old(buf).read + most >= old(buf).cap() {
                    0
                } else {
                    old(buf).read + most
                }
            }),
            final(buf).write == old(buf).write,
            final(buf).write_block == old(buf).write_block,
            final(buf).data == old(buf).data,
            final(buf).descriptors == old(buf).descriptors,
            final(buf).configured == old(buf).configured,
            final(buf).n_blocks == old(buf).n_blocks,
            final(buf).block_size == old(buf).block_size,
    {
        let most = if used <= self.len {
            used
        } else {
            self.len
        };
        let data_len = buf.data.len();

        let mut read = buf.read + most;

        if read >= data_len {
            read = 0;
        }

        buf.read = read;
    }
}

/// Configuration succeeds exactly once. `configure` returns `Ok` exactly
/// when `configure_accepts` holds: a buffer whose one-shot marker is intact
/// is accepted whenever its channel slot is free, and any buffer carrying
/// the configured marker — which every successful `configure` sets — is
/// refused from then on, whatever the channel state.
pub proof fn lemma_configure_exactly_once(fresh: Buffer, after: Buffer, channel_free: bool)
    requires
        !fresh.configured,
        after.configured,
    ensures
        fresh.configure_accepts(true),
        !after.configure_accepts(channel_free),
{
}

/// The standing cursor bounds: in any well-formed buffer all three cursors
/// lie inside `[0, capacity)` and the write-block start is a multiple of the
/// block size. Every producer and consumer operation requires and preserves
/// well-formedness, so these bounds hold across all interleavings of
/// completion notifications with reads and releases.
pub proof fn lemma_cursor_bounds(b: Buffer)
    requires
        b.wf(),
    ensures
        0 <= b.write < b.cap(),
        0 <= b.write_block < b.cap(),
        0 <= b.read < b.cap(),
        b.write_block % b.block_size == 0,
{
}

/// Partial consumption keeps the remainder: releasing `used` bytes of a
/// grant, with `used` less than the granted length, moves only the read
/// cursor — exactly as `release` then reports — and a grant taken next
/// exposes exactly `length - used` bytes.
pub proof fn lemma_partial_release(b: Buffer, used: usize)
    requires
        b.wf(),
        used < b.visible_len(),
    ensures
        ({
            let advanced = Buffer { read: (b.read + used) as usize, ..b };
            &&& advanced.wf()
            &&& advanced.visible_len() == b.visible_len() - used
        }),
{
}

} // verus!
