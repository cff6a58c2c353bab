//! Typed access to the memory-mapped register blocks of the Nintendo 64.
//!
//! Two parts carry the logic: a bitfield codec that reads and writes
//! sub-ranges of bits in a raw register value, and a checkout registry that
//! hands out at most one ownership token per hardware block.

pub mod codec;
pub mod field;
pub mod value;
pub mod registry;
pub mod ai;
pub mod dpc;
pub mod dps;
pub mod mi;
pub mod pc;
pub mod pi;
pub mod rdram;
pub mod ri;
pub mod si;
pub mod sp;
pub mod vi;
pub mod hardware;
