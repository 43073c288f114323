//! The record that the registry keeps of one network device.

use crate::mac::MacAddr;
use crate::rate_limiter::{patched_limiter, RateLimiter, RateLimiterConfig};
use vstd::prelude::*;

verus! {

/// What can be observed of a network device.
pub struct NetView {
    /// The id that the interface was configured under.
    pub id: Seq<char>,
    /// The name of the host interface that the device is bound to.
    pub iface_name: Seq<char>,
    /// The octets of the guest's hardware address, if one was given.
    pub guest_mac: Option<Seq<u8>>,
    /// The buckets that limit what the device receives.
    pub rx_rate_limiter: RateLimiterConfig,
    /// The buckets that limit what the device transmits.
    pub tx_rate_limiter: RateLimiterConfig,
}

/// The octets of an address that may be absent.
pub open spec fn mac_view(mac: Option<MacAddr>) -> Option<Seq<u8>> {
    match mac {
        Some(m) => Some(m@),
        None => None,
    }
}

/// A device after its limiters were patched: nothing else changes.
pub open spec fn patched(
    net: NetView,
    rx: Option<RateLimiterConfig>,
    tx: Option<RateLimiterConfig>,
) -> NetView {
    NetView {
        rx_rate_limiter: patched_limiter(net.rx_rate_limiter, rx),
        tx_rate_limiter: patched_limiter(net.tx_rate_limiter, tx),
        ..net
    }
}

/// A constructed network device, as far as the registry has to know it.
#[derive(Debug)]
pub struct Net {
    id: String,
    iface_name: String,
    guest_mac: Option<MacAddr>,
    rx_rate_limiter: RateLimiter,
    tx_rate_limiter: RateLimiter,
}

impl View for Net {
    type V = NetView;

    closed spec fn view(&self) -> NetView {
        NetView {
            id: self.id@,
            iface_name: self.iface_name@,
            guest_mac: mac_view(self.guest_mac),
            rx_rate_limiter: self.rx_rate_limiter@,
            tx_rate_limiter: self.tx_rate_limiter@,
        }
    }
}

impl Clone for Net {
    fn clone(&self) -> (copy: Self)
        ensures
            copy@ == self@,
    {
        Net {
            id: self.id.clone(),
            iface_name: self.iface_name.clone(),
            guest_mac: self.guest_mac,
            rx_rate_limiter: self.rx_rate_limiter,
            tx_rate_limiter: self.tx_rate_limiter,
        }
    }
}

impl Net {
    /// The record of a device with the given id, bound to the host interface
    /// `iface_name`.
    pub fn new(
        id: String,
        iface_name: String,
        guest_mac: Option<MacAddr>,
        rx_rate_limiter: RateLimiter,
        tx_rate_limiter: RateLimiter,
    ) -> (net: Net)
        ensures
            net@ == (NetView {
                id: id@,
                iface_name: iface_name@,
                guest_mac: mac_view(guest_mac),
                rx_rate_limiter: rx_rate_limiter@,
                tx_rate_limiter: tx_rate_limiter@,
            }),
    {
        Net { id, iface_name, guest_mac, rx_rate_limiter, tx_rate_limiter }
    }

    /// The id that the interface was configured under.
    pub fn id(&self) -> (id: &String)
        ensures
            id@ == self@.id,
    {
        &self.id
    }

    /// The guest's hardware address, if one was given.
    pub fn guest_mac(&self) -> (mac: Option<&MacAddr>)
        ensures
            match mac {
                Some(m) => self@.guest_mac == Some(m@),
                None => self@.guest_mac is None,
            },
    {
        self.guest_mac.as_ref()
    }

    /// The name of the host interface that the device is bound to.
    pub fn iface_name(&self) -> (name: String)
        ensures
            name@ == self@.iface_name,
    {
        self.iface_name.clone()
    }

    /// The limiter of what the device receives.
    pub fn rx_rate_limiter(&self) -> (limiter: &RateLimiter)
        ensures
            limiter@ == self@.rx_rate_limiter,
    {
        &self.rx_rate_limiter
    }

    /// The limiter of what the device transmits.
    pub fn tx_rate_limiter(&self) -> (limiter: &RateLimiter)
        ensures
            limiter@ == self@.tx_rate_limiter,
    {
        &self.tx_rate_limiter
    }

    /// Patches the two limiters in place. An absent description leaves its
    /// limiter as it is; id, host interface and address never change.
    pub fn patch_rate_limiters(
        &mut self,
        rx: Option<RateLimiterConfig>,
        tx: Option<RateLimiterConfig>,
    )
        ensures
            final(self)@ == patched(old(self)@, rx, tx),
    {
        self.rx_rate_limiter.update_buckets(rx);
        self.tx_rate_limiter.update_buckets(tx);
    }
}

} // verus!
