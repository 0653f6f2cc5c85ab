//! Android: decisions of the `WifiManager` / `ConnectivityManager` backend.

pub mod backend;
pub mod permissions;
pub mod post_connection;
pub mod scan_receiver;
pub mod security;
pub mod status_codes;
pub mod suggestion;
pub mod wifi_manager;
pub mod wifi_specifier;
