//! iOS: decisions of the `NEHotspotConfigurationManager` backend.
//!
//! iOS does not expose an API to disconnect from a network without also
//! removing the saved configuration. Both `disconnect` and `remove_profile`
//! remove the configuration. The observable difference is:
//! - `disconnect` returns `Ok(())` regardless of whether a profile existed.
//! - `remove_profile` returns `Ok(true)` if a profile existed before the call and
//!   `Ok(false)` otherwise.

pub mod backend;
pub mod configuration;
pub mod error_map;
pub mod foreground;
