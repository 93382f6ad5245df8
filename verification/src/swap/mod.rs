//! The swapfile lifecycle: btrfs operations, metadata and the orchestration.

pub mod btrfs;
pub mod manager;
pub mod metadata;

pub use btrfs::BtrfsOps;
pub use manager::SwapManager;
pub use metadata::SwapMetadata;
