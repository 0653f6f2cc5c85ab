//! Cross-platform Wi-Fi hardware abstraction layer.

use vstd::prelude::*;

pub mod assoc;
pub mod backend;
pub mod bssid;
pub mod connection;
pub mod duration;
pub mod error;
pub mod flags;
pub mod formatting;
pub mod ordering;
pub mod platform;
pub mod preflight;
pub mod scan_rollup;
pub mod search;
pub mod secret;
pub mod text;
pub mod types;
pub mod utf16;

pub use crate::error::{BoxedOsError, Error};
pub use crate::flags::SecurityFlags;
pub use crate::platform::mock::{MockBackend, MockState, VisibleNetworkProps};
pub use crate::types::{
    AdapterId,
    Band,
    ConnectOptions,
    Credentials,
    ScanOptions,
    Ssid,
    SsidError,
    VisibleNetwork,
};

verus! {

} // verus!
