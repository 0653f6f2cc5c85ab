//! Linux: decisions of the `NetworkManager` backend.

pub mod adapters;
pub mod backend;
pub mod connect;
pub mod disconnect;
pub mod error_map;
pub mod scan;
pub mod settings;
pub mod state_wait;
