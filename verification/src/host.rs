//! What the host answers when it is asked for the parts of a device.
//!
//! The registry opens no interface and arms no limiter itself. Whoever drives
//! it asks the host, and hands the answers over as plain values.

use crate::config::ConfigView;
use crate::device::NetView;
use crate::error::{DeviceError, ErrorView};
use crate::rate_limiter::{unlimited, RateLimiter, RateLimiterConfig};
use vstd::prelude::*;

verus! {

/// The host's answers to one request for construction.
pub struct HostOutcome {
    /// How making the limiter of the receive path went. It is read only where
    /// the configuration describes that limiter.
    pub rx_rate_limiter: Result<RateLimiter, std::io::Error>,
    /// How making the limiter of the transmit path went. It is read only where
    /// the configuration describes that limiter.
    pub tx_rate_limiter: Result<RateLimiter, std::io::Error>,
    /// How binding the host interface went: the name it is bound under, or
    /// why it could not be bound.
    pub tap: Result<String, DeviceError>,
}

/// What becomes of one limiter. Where the configuration describes none, the
/// device gets the limiter that limits nothing, whatever the host answered.
/// Where it describes one, the host's answer decides.
pub open spec fn resolved(
    descriptor: Option<RateLimiterConfig>,
    answer: Result<RateLimiter, std::io::Error>,
) -> Result<RateLimiterConfig, std::io::Error> {
    match descriptor {
        None => Ok(unlimited()),
        Some(_) => match answer {
            Ok(limiter) => Ok(limiter@),
            Err(e) => Err(e),
        },
    }
}

/// What construction comes to. A limiter that could not be made is reported
/// first, that of the receive path before that of the transmit path; then an
/// interface that could not be bound. Else the device has the id and address
/// of the configuration, the name that the host bound, and the limiters made.
pub open spec fn created(cfg: ConfigView, host: HostOutcome) -> Result<NetView, ErrorView> {
    match resolved(cfg.rx_rate_limiter, host.rx_rate_limiter) {
        Err(e) => Err(ErrorView::CreateRateLimiter(e)),
        Ok(rx) => match resolved(cfg.tx_rate_limiter, host.tx_rate_limiter) {
            Err(e) => Err(ErrorView::CreateRateLimiter(e)),
            Ok(tx) => match host.tap {
                Err(e) => Err(ErrorView::CreateNetworkDevice(e)),
                Ok(name) => Ok(
                    NetView {
                        id: cfg.iface_id,
                        iface_name: name@,
                        guest_mac: cfg.guest_mac,
                        rx_rate_limiter: rx,
                        tx_rate_limiter: tx,
                    },
                ),
            },
        },
    }
}

} // verus!
