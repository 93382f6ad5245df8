//! What the user-session notifier makes of an error signal.

pub mod notifier;
