//! Windows: decisions of the Native Wifi (WLAN) backend.

pub mod adapters;
pub mod connect;
pub mod disconnect;
pub mod notifications;
pub mod profile;
pub mod profile_xml;
pub mod reason;
pub mod scan;
pub mod security;
pub mod util;
