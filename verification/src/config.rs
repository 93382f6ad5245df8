//! Fixed paths, names and sizing knobs.

use vstd::prelude::*;

verus! {

// ── Swap storage ──────────────────────────────────────────────────────────────
pub const SWAP_DIR: &'static str = "/var/lib/dynamic-hibernate";
pub const SWAP_FILE_NAME: &'static str = "dynamic-hibernate.swapfile";
pub const METADATA_FILE_NAME: &'static str = ".dynamic-hibernate.metadata";

// ── Kernel power management sysfs ────────────────────────────────────────────
pub const SYS_RESUME: &'static str = "/sys/power/resume";
pub const SYS_RESUME_OFFSET: &'static str = "/sys/power/resume_offset";
pub const SYS_IMAGE_SIZE: &'static str = "/sys/power/image_size";

// ── zswap debugfs (readable only as root) ────────────────────────────────────
pub const ZSWAP_STORED_PAGES: &'static str = "/sys/kernel/debug/zswap/stored_pages";
pub const ZSWAP_POOL_TOTAL_SIZE: &'static str = "/sys/kernel/debug/zswap/pool_total_size";
pub const ZSWAP_WRITEBACK: &'static str = "/sys/kernel/debug/zswap/writeback";

// ── Compressor alignment ─────────────────────────────────────────────────────
// Both must be the same algorithm for the zswap ratio to transfer to hibernate.
pub const ZSWAP_COMPRESSOR_PATH: &'static str = "/sys/module/zswap/parameters/compressor";
pub const HIBERNATE_COMPRESSOR_PATH: &'static str = "/sys/module/hibernate/parameters/compressor";

// ── D-Bus ─────────────────────────────────────────────────────────────────────
pub const DBUS_INTERFACE: &'static str = "org.dynamic_hibernate.DynamicHibernate";
pub const DBUS_OBJECT_PATH: &'static str = "/org/dynamic_hibernate/DynamicHibernate";
pub const DBUS_SIGNAL_MEMBER: &'static str = "ErrorOccurred";

// ── Sizing knobs ─────────────────────────────────────────────────────────────

/// Minimum zswap stored pages before the pool ratio is considered representative.
/// Below this threshold (~200 MB uncompressed) the sample is too sparse to trust.
pub const MIN_ZSWAP_SAMPLE_PAGES: u64 = 51_200;

/// Size of one page held in the zswap pool, in bytes.
pub const PAGE_SIZE_BYTES: u64 = 4096;

/// Safety margin, in percent, applied to the compressed RAM estimate to absorb
/// ratio variance between the zswap sample and the full must-save working set.
pub const SIZING_SAFETY_MARGIN_PERCENT: u64 = 10;

/// Kernel hibernate image header + page bitmap overhead (kernel internal, ~1 MB).
pub const HIBERNATE_HEADER_OVERHEAD_KB: u64 = 1_024;

// ── External tool names ───────────────────────────────────────────────────────
pub const TOOL_BTRFS: &'static str = "btrfs";
pub const TOOL_SWAPON: &'static str = "swapon";
pub const TOOL_SWAPOFF: &'static str = "swapoff";
pub const TOOL_BOOTCTL: &'static str = "bootctl";
pub const TOOL_NVIDIA_SMI: &'static str = "nvidia-smi";

} // verus!
