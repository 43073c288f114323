//! The registry itself: the list of devices and the requests that change it.

use crate::config::{config_of, ConfigView, NetworkInterfaceConfig, NetworkInterfaceUpdateConfig};
use crate::device::{Net, NetView};
use crate::error::{ErrorView, NetworkInterfaceError, VmmError};
use crate::host::{created, HostOutcome};
use crate::mac::mac_text;
use crate::model::{
    build_result, built, contains_id, evicted, is_first_with_id, lemma_built_well_formed,
    lemma_evicted, lemma_position_is, lemma_position_of, lemma_push_well_formed, lemma_updated,
    mac_conflict, position_of, swap_removed, unique_ids, update_result, updated, well_formed,
};
use crate::rate_limiter::{unlimited, RateLimiter};
use vstd::prelude::*;

verus! {

/// The devices that a list of records stands for.
pub open spec fn net_views(devices: Seq<Net>) -> Seq<NetView> {
    devices.map_values(|d: Net| d@)
}

/// The contents of a list of configurations.
pub open spec fn config_views(configs: Seq<NetworkInterfaceConfig>) -> Seq<ConfigView> {
    configs.map_values(|c: NetworkInterfaceConfig| c@)
}

/// The configurations that describe the devices as they stand now, in order.
pub open spec fn configs_of(devices: Seq<NetView>) -> Seq<ConfigView> {
    devices.map_values(|d: NetView| config_of(d))
}

/// What a result of the registry holds.
pub open spec fn result_view(r: Result<Net, NetworkInterfaceError>) -> Result<NetView, ErrorView> {
    match r {
        Ok(net) => Ok(net@),
        Err(e) => Err(e@),
    }
}

/// What a result without a value holds.
pub open spec fn unit_result_view(r: Result<(), NetworkInterfaceError>) -> Result<(), ErrorView> {
    match r {
        Ok(()) => Ok(()),
        Err(e) => Err(e@),
    }
}

/// Builder for a list of network devices.
pub struct NetBuilder {
    net_devices: Vec<Net>,
}

impl View for NetBuilder {
    type V = Seq<NetView>;

    closed spec fn view(&self) -> Seq<NetView> {
        net_views(self.net_devices@)
    }
}

impl Default for NetBuilder {
    fn default() -> (builder: Self)
        ensures
            builder@ == Seq::<NetView>::empty(),
    {
        NetBuilder::new()
    }
}

impl NetBuilder {
    /// Creates an empty list of Network Devices.
    pub fn new() -> (builder: Self)
        ensures
            builder@ == Seq::<NetView>::empty(),
            well_formed(builder@),
    {
        let builder = NetBuilder { net_devices: Vec::new() };
        assert(builder@ =~= Seq::<NetView>::empty());
        builder
    }

    /// The number of devices.
    pub fn len(&self) -> (n: usize)
        ensures
            n == self@.len(),
    {
        self.net_devices.len()
    }

    /// Whether there is no device.
    pub fn is_empty(&self) -> (empty: bool)
        ensures
            empty == (self@.len() == 0),
    {
        self.net_devices.len() == 0
    }

    /// The devices, in the order in which they were built.
    pub fn iter(&self) -> (devices: &[Net])
        ensures
            net_views(devices@) == self@,
    {
        self.net_devices.as_slice()
    }

    /// The devices, for a caller that has to change them in place. The
    /// registry holds afterwards what the caller left there.
    pub fn iter_mut(&mut self) -> (devices: &mut [Net])
        ensures
            net_views(devices@) == old(self)@,
            final(self)@ == net_views(final(devices)@),
    {
        self.net_devices.as_mut_slice()
    }

    /// Adds an existing network device in the builder, whatever the builder
    /// holds already. The registry stays well formed where the caller has made
    /// sure that the device's id is new and that nobody holds its address.
    pub fn add_device(&mut self, device: Net)
        ensures
            final(self)@ == old(self)@.push(device@),
            well_formed(old(self)@) && !contains_id(old(self)@, device@.id) && !mac_conflict(
                old(self)@,
                device@.id,
                device@.guest_mac,
            ) ==> well_formed(final(self)@),
    {
        self.net_devices.push(device);
        proof {
            assert(self@ =~= old(self)@.push(device@));
            if well_formed(old(self)@) && !contains_id(old(self)@, device@.id) && !mac_conflict(
                old(self)@,
                device@.id,
                device@.guest_mac,
            ) {
                lemma_push_well_formed(old(self)@, device@);
            }
        }
    }

    /// The place of the first device with the given id.
    pub fn position(&self, iface_id: &String) -> (place: Option<usize>)
        ensures
            match place {
                Some(i) => position_of(self@, iface_id@) == Some(i as int),
                None => position_of(self@, iface_id@) is None,
            },
    {
        let mut i: usize = 0;
        while i < self.net_devices.len()
            invariant
                i <= self.net_devices.len(),
                forall|j: int| 0 <= j < i ==> (#[trigger] self@[j]).id != iface_id@,
            decreases self.net_devices.len() - i,
        {
            assert(self@[i as int] == self.net_devices@[i as int]@);
            if same_text(self.net_devices[i].id(), iface_id) {
                proof {
                    assert(is_first_with_id(self@, iface_id@, i as int));
                    lemma_position_is(self@, iface_id@, i as int);
                }
                return Some(i);
            }
            i += 1;
        }
        proof {
            lemma_position_of(self@, iface_id@);
        }
        None
    }

    /// Whether a device under another id holds the address that the
    /// configuration asks for.
    pub fn mac_in_use(&self, netif_config: &NetworkInterfaceConfig) -> (conflict: bool)
        ensures
            conflict == mac_conflict(self@, netif_config@.iface_id, netif_config@.guest_mac),
    {
        match &netif_config.guest_mac {
            None => false,
            Some(mac) => {
                let mut i: usize = 0;
                while i < self.net_devices.len()
                    invariant
                        i <= self.net_devices.len(),
                        netif_config@.guest_mac == Some(mac@),
                        forall|j: int|
                            0 <= j < i ==> !((#[trigger] self@[j]).guest_mac == Some(mac@)
                                && self@[j].id != netif_config@.iface_id),
                    decreases self.net_devices.len() - i,
                {
                    let net = &self.net_devices[i];
                    assert(self@[i as int] == net@);
                    let same_mac = match net.guest_mac() {
                        Some(held) => held.same_as(mac),
                        None => false,
                    };
                    // Check if another net dev has same MAC.
                    if same_mac && !same_text(net.id(), &netif_config.iface_id) {
                        assert(self@[i as int].guest_mac == Some(mac@));
                        return true;
                    }
                    i += 1;
                }
                false
            },
        }
    }

    /// Removes the device at `index` and hands it to the caller. The last
    /// device takes its place, so the order of the rest is not kept.
    fn remove_at(&mut self, index: usize) -> (net: Net)
        requires
            index < old(self)@.len(),
        ensures
            net@ == old(self)@[index as int],
            final(self)@ == swap_removed(old(self)@, index as int),
    {
        let net = self.net_devices.swap_remove(index);
        assert(self@ =~= swap_removed(old(self)@, index as int));
        net
    }

    /// The first half of a request to build, which needs nothing of the host.
    /// Where another interface holds the address, the request is refused and
    /// the registry is as it was. Else the device of the same id, if there is
    /// one, is removed at once, and the place it had is returned: whatever
    /// construction comes to, that device is gone.
    pub fn begin_build(&mut self, netif_config: &NetworkInterfaceConfig) -> (r: Result<
        Option<usize>,
        NetworkInterfaceError,
    >)
        ensures
            match r {
                Err(e) => {
                    &&& mac_conflict(old(self)@, netif_config@.iface_id, netif_config@.guest_mac)
                    &&& e@ == ErrorView::GuestMacAddressInUse(
                        mac_text(netif_config@.guest_mac->0),
                    )
                    &&& final(self)@ == old(self)@
                },
                Ok(place) => {
                    &&& !mac_conflict(old(self)@, netif_config@.iface_id, netif_config@.guest_mac)
                    &&& final(self)@ == evicted(old(self)@, netif_config@.iface_id)
                    &&& match place {
                        Some(i) => position_of(old(self)@, netif_config@.iface_id) == Some(
                            i as int,
                        ),
                        None => position_of(old(self)@, netif_config@.iface_id) is None,
                    }
                },
            },
            unique_ids(old(self)@) && r is Ok ==> !contains_id(
                final(self)@,
                netif_config@.iface_id,
            ),
            well_formed(old(self)@) ==> well_formed(final(self)@),
    {
        // Validate there is no Mac conflict.
        // No need to validate host_dev_name conflict. In such a case,
        // an error will be thrown during device creation anyway.
        if let Some(mac) = &netif_config.guest_mac {
            if self.mac_in_use(netif_config) {
                return Err(NetworkInterfaceError::GuestMacAddressInUse(mac.to_string()));
            }
        }
        proof {
            lemma_evicted(self@, netif_config@.iface_id);
        }
        // If this is an update, just remove the old one.
        let place = self.position(&netif_config.iface_id);
        if let Some(index) = place {
            proof {
                lemma_position_of(self@, netif_config@.iface_id);
            }
            self.remove_at(index);
        }
        Ok(place)
    }

    /// Creates a Net device from a NetworkInterfaceConfig and the host's
    /// answers for it. The answers are read in the order in which the host is
    /// asked, and no further than the first that failed; the answer for a
    /// limiter that the configuration does not describe is not read at all.
    pub fn create_net(cfg: NetworkInterfaceConfig, host: HostOutcome) -> (r: Result<
        Net,
        NetworkInterfaceError,
    >)
        ensures
            result_view(r) == created(cfg@, host),
    {
        let rx_rate_limiter = match cfg.rx_rate_limiter {
            None => None,
            Some(_) => match host.rx_rate_limiter {
                Ok(limiter) => Some(limiter),
                Err(e) => {
                    return Err(NetworkInterfaceError::CreateRateLimiter(e));
                },
            },
        };
        let tx_rate_limiter = match cfg.tx_rate_limiter {
            None => None,
            Some(_) => match host.tx_rate_limiter {
                Ok(limiter) => Some(limiter),
                Err(e) => {
                    return Err(NetworkInterfaceError::CreateRateLimiter(e));
                },
            },
        };
        // Create and return the Net device
        match host.tap {
            Ok(iface_name) => Ok(
                Net::new(
                    cfg.iface_id,
                    iface_name,
                    cfg.guest_mac,
                    limiter_or_default(rx_rate_limiter),
                    limiter_or_default(tx_rate_limiter),
                ),
            ),
            Err(e) => Err(NetworkInterfaceError::CreateNetworkDevice(e)),
        }
    }

    /// Builds a network device based on a network interface config and the
    /// host's answers for it. Keeps the device in the builder's internal list
    /// and returns a copy of its record.
    pub fn build(&mut self, netif_config: NetworkInterfaceConfig, host: HostOutcome) -> (r: Result<
        Net,
        NetworkInterfaceError,
    >)
        ensures
            result_view(r) == build_result(old(self)@, netif_config@, host),
            final(self)@ == built(old(self)@, netif_config@, host),
            well_formed(old(self)@) ==> well_formed(final(self)@),
    {
        proof {
            if well_formed(self@) {
                lemma_built_well_formed(self@, netif_config@, host);
            }
        }
        match self.begin_build(&netif_config) {
            Err(e) => {
                return Err(e);
            },
            Ok(_) => {},
        }
        // Add new device.
        match Self::create_net(netif_config, host) {
            Err(e) => Err(e),
            Ok(net) => {
                let handle = net.clone();
                self.add_device(net);
                Ok(handle)
            },
        }
    }

    /// Patches the limiters of the interface that the update names. Where no
    /// interface has that id the registry is left as it was.
    pub fn update(&mut self, new_cfg: NetworkInterfaceUpdateConfig) -> (r: Result<
        (),
        NetworkInterfaceError,
    >)
        ensures
            unit_result_view(r) == update_result(old(self)@, new_cfg@),
            final(self)@ == updated(old(self)@, new_cfg@),
            well_formed(old(self)@) ==> well_formed(final(self)@),
    {
        proof {
            lemma_position_of(self@, new_cfg@.iface_id);
            lemma_updated(self@, new_cfg@);
        }
        match self.position(&new_cfg.iface_id) {
            None => Err(NetworkInterfaceError::DeviceUpdate(VmmError::InterfaceNotFound)),
            Some(index) => {
                self.net_devices[index].patch_rate_limiters(
                    new_cfg.rx_rate_limiter,
                    new_cfg.tx_rate_limiter,
                );
                assert(self@ =~= updated(old(self)@, new_cfg@));
                Ok(())
            },
        }
    }

    /// Returns a vec with the structures used to configure the net devices,
    /// each taken from its device as it stands now.
    pub fn configs(&self) -> (ret: Vec<NetworkInterfaceConfig>)
        ensures
            config_views(ret@) == configs_of(self@),
    {
        let mut ret: Vec<NetworkInterfaceConfig> = Vec::new();
        let mut i: usize = 0;
        while i < self.net_devices.len()
            invariant
                i <= self.net_devices.len(),
                ret@.len() == i,
                forall|j: int| 0 <= j < i ==> (#[trigger] ret@[j])@ == config_of(self@[j]),
            decreases self.net_devices.len() - i,
        {
            ret.push(NetworkInterfaceConfig::from(&self.net_devices[i]));
            i += 1;
        }
        assert(config_views(ret@) =~= configs_of(self@));
        ret
    }
}

/// Whether two strings hold the same text.
fn same_text(a: &String, b: &String) -> (same: bool)
    ensures
        same == (a@ == b@),
{
    *a == *b
}

/// The limiter that was made, or the one that limits nothing where none was
/// asked for.
fn limiter_or_default(limiter: Option<RateLimiter>) -> (r: RateLimiter)
    ensures
        r@ == match limiter {
            Some(l) => l@,
            None => unlimited(),
        },
{
    match limiter {
        Some(l) => l,
        None => RateLimiter::default(),
    }
}

} // verus!
