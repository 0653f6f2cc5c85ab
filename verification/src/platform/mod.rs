//! Backends.

pub mod android;
pub mod ios;
pub mod linux;
pub mod macos;
pub mod mock;
pub mod stub;
pub mod windows;
