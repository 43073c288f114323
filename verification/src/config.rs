//! The declarative descriptions that requests carry.

use crate::device::{mac_view, Net, NetView};
use crate::mac::MacAddr;
use crate::rate_limiter::{config_option, RateLimiterConfig};
use vstd::prelude::*;

verus! {

/// The content of a [`NetworkInterfaceConfig`].
pub struct ConfigView {
    pub iface_id: Seq<char>,
    pub host_dev_name: Seq<char>,
    pub guest_mac: Option<Seq<u8>>,
    pub rx_rate_limiter: Option<RateLimiterConfig>,
    pub tx_rate_limiter: Option<RateLimiterConfig>,
}

/// The content of a [`NetworkInterfaceUpdateConfig`].
pub struct UpdateView {
    pub iface_id: Seq<char>,
    pub rx_rate_limiter: Option<RateLimiterConfig>,
    pub tx_rate_limiter: Option<RateLimiterConfig>,
}

/// The configuration that describes a device as it stands now. A limiter
/// without buckets is left out of it.
pub open spec fn config_of(net: NetView) -> ConfigView {
    ConfigView {
        iface_id: net.id,
        host_dev_name: net.iface_name,
        guest_mac: net.guest_mac,
        rx_rate_limiter: config_option(net.rx_rate_limiter),
        tx_rate_limiter: config_option(net.tx_rate_limiter),
    }
}

/// The description of one guest network interface, as a request to create or
/// replace it carries it.
#[derive(Debug, PartialEq)]
pub struct NetworkInterfaceConfig {
    /// ID of the guest network interface.
    pub iface_id: String,
    /// Host level path for the guest network interface.
    pub host_dev_name: String,
    /// Guest MAC address.
    pub guest_mac: Option<MacAddr>,
    /// Rate Limiter for received packages.
    pub rx_rate_limiter: Option<RateLimiterConfig>,
    /// Rate Limiter for transmitted packages.
    pub tx_rate_limiter: Option<RateLimiterConfig>,
}

impl View for NetworkInterfaceConfig {
    type V = ConfigView;

    open spec fn view(&self) -> ConfigView {
        ConfigView {
            iface_id: self.iface_id@,
            host_dev_name: self.host_dev_name@,
            guest_mac: mac_view(self.guest_mac),
            rx_rate_limiter: self.rx_rate_limiter,
            tx_rate_limiter: self.tx_rate_limiter,
        }
    }
}

impl Clone for NetworkInterfaceConfig {
    fn clone(&self) -> (copy: Self)
        ensures
            copy@ == self@,
    {
        NetworkInterfaceConfig {
            iface_id: self.iface_id.clone(),
            host_dev_name: self.host_dev_name.clone(),
            guest_mac: self.guest_mac,
            rx_rate_limiter: self.rx_rate_limiter,
            tx_rate_limiter: self.tx_rate_limiter,
        }
    }
}

impl NetworkInterfaceConfig {
    /// The configuration that describes `net` as it stands now.
    pub fn from(net: &Net) -> (cfg: NetworkInterfaceConfig)
        ensures
            cfg@ == config_of(net@),
    {
        let rx_rl = RateLimiterConfig::from(net.rx_rate_limiter());
        let tx_rl = RateLimiterConfig::from(net.tx_rate_limiter());
        let guest_mac = match net.guest_mac() {
            Some(mac) => Some(*mac),
            None => None,
        };
        NetworkInterfaceConfig {
            iface_id: net.id().clone(),
            host_dev_name: net.iface_name(),
            guest_mac,
            rx_rate_limiter: rx_rl.into_option(),
            tx_rate_limiter: tx_rl.into_option(),
        }
    }
}

/// The data fed into a request to update an interface. Only the two rate
/// limiters can be updated.
#[derive(Debug, PartialEq)]
pub struct NetworkInterfaceUpdateConfig {
    /// The interface ID, as provided when the interface was created.
    pub iface_id: String,
    /// New RX rate limiter config. Only provided data is updated: what is
    /// missing is left unchanged, not removed.
    pub rx_rate_limiter: Option<RateLimiterConfig>,
    /// New TX rate limiter config. Only provided data is updated: what is
    /// missing is left unchanged, not removed.
    pub tx_rate_limiter: Option<RateLimiterConfig>,
}

impl View for NetworkInterfaceUpdateConfig {
    type V = UpdateView;

    open spec fn view(&self) -> UpdateView {
        UpdateView {
            iface_id: self.iface_id@,
            rx_rate_limiter: self.rx_rate_limiter,
            tx_rate_limiter: self.tx_rate_limiter,
        }
    }
}

impl Clone for NetworkInterfaceUpdateConfig {
    fn clone(&self) -> (copy: Self)
        ensures
            copy@ == self@,
    {
        NetworkInterfaceUpdateConfig {
            iface_id: self.iface_id.clone(),
            rx_rate_limiter: self.rx_rate_limiter,
            tx_rate_limiter: self.tx_rate_limiter,
        }
    }
}

} // verus!
