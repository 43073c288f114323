//! What holds of the registry whatever it holds and whatever is asked of it.

use crate::builder::configs_of;
use crate::config::{config_of, ConfigView, UpdateView};
use crate::device::NetView;
use crate::error::ErrorView;
use crate::host::{created, HostOutcome};
use crate::mac::mac_text;
use crate::model::{
    build_result, built, contains_id, evicted, lemma_evicted, lemma_position_of, lemma_updated,
    mac_conflict, position_of, unique_ids, unique_macs, updated, well_formed,
};
use vstd::prelude::*;

verus! {

/// Building an id that is there already, with the address it has, replaces its
/// device where construction succeeds: the registry is as long as before, the
/// one device with that id is the new one, and it stands last, under the name
/// that the host bound it to.
pub proof fn lemma_rebuild_replaces(
    devices: Seq<NetView>,
    cfg: ConfigView,
    host: HostOutcome,
    k: int,
)
    requires
        well_formed(devices),
        0 <= k < devices.len(),
        devices[k].id == cfg.iface_id,
        devices[k].guest_mac == cfg.guest_mac,
        created(cfg, host) is Ok,
    ensures
        build_result(devices, cfg, host) == created(cfg, host),
        built(devices, cfg, host).len() == devices.len(),
        forall|i: int|
            0 <= i < devices.len() ==> ((#[trigger] built(devices, cfg, host)[i]).id
                == cfg.iface_id <==> i == devices.len() - 1),
        built(devices, cfg, host).last() == created(cfg, host)->Ok_0,
        configs_of(built(devices, cfg, host)).last().iface_id == cfg.iface_id,
        configs_of(built(devices, cfg, host)).last().guest_mac == cfg.guest_mac,
        configs_of(built(devices, cfg, host)).last().host_dev_name == host.tap->Ok_0@,
{
    lemma_own_mac_is_no_conflict(devices, cfg, host, k);
    lemma_position_of(devices, cfg.iface_id);
    lemma_evicted(devices, cfg.iface_id);
    let rest = evicted(devices, cfg.iface_id);
    let after = built(devices, cfg, host);
    assert(after == rest.push(created(cfg, host)->Ok_0));
    assert forall|i: int| 0 <= i < devices.len() implies ((#[trigger] after[i]).id == cfg.iface_id
        <==> i == devices.len() - 1) by {
        if i < devices.len() - 1 {
            assert(after[i] == rest[i]);
        }
    }
}

/// An address that a device under another id holds is refused, and the
/// registry is left exactly as it was.
pub proof fn lemma_mac_of_another_is_refused(
    devices: Seq<NetView>,
    cfg: ConfigView,
    host: HostOutcome,
    k: int,
)
    requires
        0 <= k < devices.len(),
        devices[k].id != cfg.iface_id,
        cfg.guest_mac is Some,
        devices[k].guest_mac == cfg.guest_mac,
    ensures
        build_result(devices, cfg, host) == Err::<NetView, ErrorView>(
            ErrorView::GuestMacAddressInUse(mac_text(cfg.guest_mac->0)),
        ),
        built(devices, cfg, host) == devices,
{
}

/// An interface may ask again for the address that it holds: that is no
/// conflict, so the request goes on to construction.
pub proof fn lemma_own_mac_is_no_conflict(
    devices: Seq<NetView>,
    cfg: ConfigView,
    host: HostOutcome,
    k: int,
)
    requires
        well_formed(devices),
        0 <= k < devices.len(),
        devices[k].id == cfg.iface_id,
        devices[k].guest_mac == cfg.guest_mac,
    ensures
        !mac_conflict(devices, cfg.iface_id, cfg.guest_mac),
        build_result(devices, cfg, host) == created(cfg, host),
{
    if mac_conflict(devices, cfg.iface_id, cfg.guest_mac) {
        let j = choose|j: int|
            0 <= j < devices.len() && (#[trigger] devices[j]).guest_mac == cfg.guest_mac
                && devices[j].id != cfg.iface_id;
        if j < k {
            assert(devices[j].guest_mac != devices[k].guest_mac);
        } else {
            assert(devices[k].guest_mac != devices[j].guest_mac);
        }
    }
}

/// A request without an address is never refused for its address, whatever
/// the registry holds.
pub proof fn lemma_absent_mac_never_conflicts(
    devices: Seq<NetView>,
    cfg: ConfigView,
    host: HostOutcome,
)
    requires
        cfg.guest_mac is None,
    ensures
        !mac_conflict(devices, cfg.iface_id, cfg.guest_mac),
        build_result(devices, cfg, host) == created(cfg, host),
{
}

/// Any number of devices without an address may stand side by side.
pub proof fn lemma_absent_macs_coexist(devices: Seq<NetView>)
    requires
        forall|i: int| 0 <= i < devices.len() ==> (#[trigger] devices[i]).guest_mac is None,
    ensures
        unique_macs(devices),
{
}

/// A patch changes nothing but the limiters it names: every device keeps its
/// id, host interface and address, and the configuration of each shows the
/// limiter that the patch left out exactly as before.
pub proof fn lemma_patch_keeps_what_it_leaves_out(devices: Seq<NetView>, update: UpdateView)
    ensures
        configs_of(updated(devices, update)).len() == configs_of(devices).len(),
        forall|i: int|
            0 <= i < devices.len() ==> {
                let before = configs_of(devices)[i];
                let after = #[trigger] configs_of(updated(devices, update))[i];
                &&& after.iface_id == before.iface_id
                &&& after.host_dev_name == before.host_dev_name
                &&& after.guest_mac == before.guest_mac
                &&& update.rx_rate_limiter is None ==> after.rx_rate_limiter
                    == before.rx_rate_limiter
                &&& update.tx_rate_limiter is None ==> after.tx_rate_limiter
                    == before.tx_rate_limiter
            },
{
    lemma_position_of(devices, update.iface_id);
    lemma_updated(devices, update);
    let now = updated(devices, update);
    assert forall|i: int| 0 <= i < devices.len() implies {
        let before = configs_of(devices)[i];
        let after = #[trigger] configs_of(now)[i];
        &&& after.iface_id == before.iface_id
        &&& after.host_dev_name == before.host_dev_name
        &&& after.guest_mac == before.guest_mac
        &&& update.rx_rate_limiter is None ==> after.rx_rate_limiter == before.rx_rate_limiter
        &&& update.tx_rate_limiter is None ==> after.tx_rate_limiter == before.tx_rate_limiter
    } by {
        assert(configs_of(now)[i] == config_of(now[i]));
        assert(configs_of(devices)[i] == config_of(devices[i]));
    }
}

/// Rebuilding an id is destructive where construction fails: the request is
/// answered with the error, and the device that had the id is gone all the same.
pub proof fn lemma_failed_rebuild_removes(devices: Seq<NetView>, cfg: ConfigView, host: HostOutcome)
    requires
        unique_ids(devices),
        contains_id(devices, cfg.iface_id),
        !mac_conflict(devices, cfg.iface_id, cfg.guest_mac),
        created(cfg, host) is Err,
    ensures
        build_result(devices, cfg, host) is Err,
        !contains_id(built(devices, cfg, host), cfg.iface_id),
        built(devices, cfg, host).len() == devices.len() - 1,
{
    lemma_position_of(devices, cfg.iface_id);
    lemma_evicted(devices, cfg.iface_id);
}

/// A device built without limiters, which the host bound under the name that
/// was asked for, is shown by the registry with exactly the configuration it
/// was built from. Built into an empty registry it is all that is shown.
pub proof fn lemma_snapshot_round_trip(devices: Seq<NetView>, cfg: ConfigView, host: HostOutcome)
    requires
        !mac_conflict(devices, cfg.iface_id, cfg.guest_mac),
        cfg.rx_rate_limiter is None,
        cfg.tx_rate_limiter is None,
        host.tap is Ok,
        host.tap->Ok_0@ == cfg.host_dev_name,
    ensures
        build_result(devices, cfg, host) is Ok,
        configs_of(built(devices, cfg, host)).last() == cfg,
        devices.len() == 0 ==> configs_of(built(devices, cfg, host)) == seq![cfg],
{
    lemma_position_of(devices, cfg.iface_id);
    let after = built(devices, cfg, host);
    let net = created(cfg, host)->Ok_0;
    assert(after.last() == net);
    assert(configs_of(after).last() == config_of(net));
    if devices.len() == 0 {
        assert(position_of(devices, cfg.iface_id) is None);
        assert(configs_of(after) =~= seq![cfg]);
    }
}

} // verus!
