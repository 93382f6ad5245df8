//! Kernel-interface probes.
//!
//! Each probe holds, as plain values, what its kernel interface showed when it
//! was read; its methods derive the numbers the sizing needs. A missing or
//! unreadable source is `None` and falls back to a safe default where one exists
//! (VRAM counts as 0, the compression ratio as 1).

pub mod mem;
pub mod swap;
pub mod vram;
pub mod zswap;

pub use mem::MemProbe;
pub use swap::{SwapEntry, SwapProbe};
pub use vram::VramProbe;
pub use zswap::ZswapProbe;
