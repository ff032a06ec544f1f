//! Capture-protection controller: decides, per platform and OS version,
//! whether and how a window can be excluded from screen capture, and
//! reports a structured status back to the embedding shell.

pub mod controller;
pub mod decimal;
pub mod version;
