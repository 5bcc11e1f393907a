//! Byte-stream adapter over a buffer's consumer side: each read pulls at
//! most one byte from the current grant, releasing nothing when the buffer
//! is empty (the would-block signal) and one byte when data is present.
//! The write side of the original pair is a pass-through to the underlying
//! peripheral writer and lives outside the model.

use vstd::prelude::*;

use crate::dmac::buffer::{Buffer, Consumer};

verus! {

/// A byte-oriented reader over one buffer's consumer token.
pub struct Serial {
    consumer: Consumer,
}

impl Serial {
    /// Wrap a consumer.
    pub fn new(consumer: Consumer) -> Serial {
        Serial { consumer }
    }

    /// Pull one byte: `None` when nothing is visible (the caller should
    /// retry later), otherwise the byte at the read cursor, which advances
    /// past it, wrapping at the buffer end.
    pub fn read(&self, buf: &mut Buffer) -> (r: Option<u8>)
        requires
            old(buf).wf(),
        ensures
            final(buf).wf(),
            old(buf).visible_len() == 0 ==> r is None && final(buf).read == old(buf).read,
            old(buf).visible_len() > 0 ==> {
                &&& r == Some(old(buf).data@[old(buf).read as int])
                &&& final(buf).read == (if old(buf).read + 1 == old(buf).cap() {
                    0int
                } else {
                    old(buf).read + 1
                })
            },
            final(buf).write == old(buf).write,
            final(buf).write_block == old(buf).write_block,
            final(buf).data == old(buf).data,
            final(buf).descriptors == old(buf).descriptors,
            final(buf).configured == old(buf).configured,
            final(buf).n_blocks == old(buf).n_blocks,
            final(buf).block_size == old(buf).block_size,
    {
        let grant = self.consumer.read(buf);

        if grant.len < 1 {
            grant.release(buf, 0);
            return None;
        }

        let slice = grant.as_slice(buf);
        let byte = slice[0];
        grant.release(buf, 1);

        Some(byte)
    }
}

} // verus!
