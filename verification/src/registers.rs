//! Register field accessors in the reader/writer style: a reader decodes
//! fields out of a captured register value, a writer assembles one by moving
//! through single-field proxies, each of which masks its own bits.

pub mod ccbuf_dith4;
pub mod ctrlb;
pub mod dbgctrl;
pub mod prescbuf;
