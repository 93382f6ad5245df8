//! Dynamic hibernation swap management: sizing, kernel-interface parsing and
//! the decision logic of the swapfile lifecycle, with their contracts.

pub mod config;
pub mod dbus;
pub mod error;
pub mod power;
pub mod probe;
pub mod sizing;
pub mod swap;
pub mod system;
pub mod systemd;
pub mod text;

pub use error::{ErrorKind, HibernateError, HibernateResult, IntoHibernateError};
