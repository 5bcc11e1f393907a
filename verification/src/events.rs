//! Event-crossbar identities: the generator and user slots that the first
//! four DMA channels are wired to.

use vstd::prelude::*;

verus! {

/// An event-generator identity on the event crossbar.
#[derive(Debug, Clone, Copy, PartialEq, Eq, Structural)]
pub enum Generator {
    DmacCh0,
    DmacCh1,
    DmacCh2,
    DmacCh3,
}

/// An event-user identity on the event crossbar.
#[derive(Debug, Clone, Copy, PartialEq, Eq, Structural)]
pub enum User {
    DmacCh0,
    DmacCh1,
    DmacCh2,
    DmacCh3,
}

} // verus!
