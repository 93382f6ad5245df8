//! systemd-boot menu handling around hibernate/resume cycles.

pub mod boot_control;

pub use boot_control::{BootControl, BootEntry};
