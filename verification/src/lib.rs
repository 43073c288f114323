//! A registry of the network interfaces attached to a virtual machine.
//!
//! The registry keeps one record per constructed device and decides what a
//! request to create, replace or patch an interface does to that list. It never
//! touches the host itself: whoever drives it asks the host and hands over what
//! the host answered.

pub mod builder;
pub mod config;
pub mod device;
pub mod error;
pub mod host;
pub mod laws;
pub mod mac;
pub mod model;
pub mod rate_limiter;

pub use builder::NetBuilder;
pub use config::{NetworkInterfaceConfig, NetworkInterfaceUpdateConfig};
pub use device::Net;
pub use error::{DeviceError, NetworkInterfaceError, TapError, VmmError};
pub use host::HostOutcome;
pub use mac::MacAddr;
pub use rate_limiter::{RateLimiter, RateLimiterConfig, TokenBucketConfig};
