//! macOS: decisions of the `CoreWLAN` backend.

pub mod adapter;
pub mod connect;
pub mod error;
pub mod keychain;
pub mod scan;
