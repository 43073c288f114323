//! The registry as a sequence of devices, and what each operation makes of it.

use crate::config::{ConfigView, UpdateView};
use crate::device::{patched, NetView};
use crate::error::{ErrorView, VmmError};
use crate::host::{created, HostOutcome};
use crate::mac::mac_text;
use vstd::prelude::*;

verus! {

/// Whether some device has the given id.
pub open spec fn contains_id(devices: Seq<NetView>, id: Seq<char>) -> bool {
    exists|i: int| 0 <= i < devices.len() && (#[trigger] devices[i]).id == id
}

/// Whether `i` is the place of the first device with the given id.
pub open spec fn is_first_with_id(devices: Seq<NetView>, id: Seq<char>, i: int) -> bool {
    &&& 0 <= i < devices.len()
    &&& devices[i].id == id
    &&& forall|j: int| 0 <= j < i ==> (#[trigger] devices[j]).id != id
}

/// The place of the first device with the given id, if there is one.
pub open spec fn position_of(devices: Seq<NetView>, id: Seq<char>) -> Option<int> {
    if exists|i: int| is_first_with_id(devices, id, i) {
        Some(choose|i: int| is_first_with_id(devices, id, i))
    } else {
        None
    }
}

/// The devices without the one at `i`: the last device takes its place.
pub open spec fn swap_removed(devices: Seq<NetView>, i: int) -> Seq<NetView> {
    devices.update(i, devices.last()).drop_last()
}

/// The devices once the first one with the given id, if any, has been removed.
pub open spec fn evicted(devices: Seq<NetView>, id: Seq<char>) -> Seq<NetView> {
    match position_of(devices, id) {
        Some(i) => swap_removed(devices, i),
        None => devices,
    }
}

/// Whether a device under another id holds the given address already. An
/// absent address is held by nobody.
pub open spec fn mac_conflict(devices: Seq<NetView>, id: Seq<char>, mac: Option<Seq<u8>>) -> bool {
    mac is Some && exists|i: int|
        0 <= i < devices.len() && (#[trigger] devices[i]).guest_mac == mac && devices[i].id != id
}

/// No two devices share an id.
pub open spec fn unique_ids(devices: Seq<NetView>) -> bool {
    forall|i: int, j: int|
        0 <= i < j < devices.len() ==> (#[trigger] devices[i]).id != (#[trigger] devices[j]).id
}

/// No two devices share an address; any number of them may have none.
pub open spec fn unique_macs(devices: Seq<NetView>) -> bool {
    forall|i: int, j: int|
        0 <= i < j < devices.len() && devices[i].guest_mac is Some ==> (
        #[trigger] devices[i]).guest_mac != (#[trigger] devices[j]).guest_mac
}

/// What must hold of the registry after every change that succeeded.
pub open spec fn well_formed(devices: Seq<NetView>) -> bool {
    unique_ids(devices) && unique_macs(devices)
}

/// What a request to build answers: the address in its text form where another
/// interface holds it, else what construction came to.
pub open spec fn build_result(devices: Seq<NetView>, cfg: ConfigView, host: HostOutcome) -> Result<
    NetView,
    ErrorView,
> {
    if mac_conflict(devices, cfg.iface_id, cfg.guest_mac) {
        Err(ErrorView::GuestMacAddressInUse(mac_text(cfg.guest_mac->0)))
    } else {
        created(cfg, host)
    }
}

/// The registry after a request to build. A refused request leaves it as it
/// was. An admitted one removes the device of the same id before anything is
/// constructed, so a failed construction leaves the registry without it.
pub open spec fn built(devices: Seq<NetView>, cfg: ConfigView, host: HostOutcome) -> Seq<NetView> {
    if mac_conflict(devices, cfg.iface_id, cfg.guest_mac) {
        devices
    } else {
        match created(cfg, host) {
            Ok(net) => evicted(devices, cfg.iface_id).push(net),
            Err(_) => evicted(devices, cfg.iface_id),
        }
    }
}

/// What a patch answers: an error where no interface has the id.
pub open spec fn update_result(devices: Seq<NetView>, update: UpdateView) -> Result<(), ErrorView> {
    if contains_id(devices, update.iface_id) {
        Ok(())
    } else {
        Err(ErrorView::DeviceUpdate(VmmError::InterfaceNotFound))
    }
}

/// The registry after a patch: the first device with the id has its limiters
/// patched, every other device is as it was.
pub open spec fn updated(devices: Seq<NetView>, update: UpdateView) -> Seq<NetView> {
    match position_of(devices, update.iface_id) {
        Some(i) => devices.update(
            i,
            patched(devices[i], update.rx_rate_limiter, update.tx_rate_limiter),
        ),
        None => devices,
    }
}

/// There is only one first place.
pub proof fn lemma_first_is_unique(devices: Seq<NetView>, id: Seq<char>, i: int, j: int)
    requires
        is_first_with_id(devices, id, i),
        is_first_with_id(devices, id, j),
    ensures
        i == j,
{
    if i < j {
        assert(devices[i].id != id);
    } else if j < i {
        assert(devices[j].id != id);
    }
}

/// Where some device has the id, one of them comes first.
pub proof fn lemma_first_exists(devices: Seq<NetView>, id: Seq<char>, k: int)
    requires
        0 <= k < devices.len(),
        devices[k].id == id,
    ensures
        exists|i: int| is_first_with_id(devices, id, i),
    decreases k,
{
    if exists|j: int| 0 <= j < k && (#[trigger] devices[j]).id == id {
        let j = choose|j: int| 0 <= j < k && (#[trigger] devices[j]).id == id;
        lemma_first_exists(devices, id, j);
    } else {
        assert(is_first_with_id(devices, id, k));
    }
}

/// `position_of` finds the first device with the id, and finds none only
/// where there is none.
pub proof fn lemma_position_of(devices: Seq<NetView>, id: Seq<char>)
    ensures
        match position_of(devices, id) {
            Some(i) => is_first_with_id(devices, id, i),
            None => !contains_id(devices, id),
        },
        position_of(devices, id) is Some <==> contains_id(devices, id),
{
    if contains_id(devices, id) {
        let k = choose|k: int| 0 <= k < devices.len() && (#[trigger] devices[k]).id == id;
        lemma_first_exists(devices, id, k);
    }
    if let Some(i) = position_of(devices, id) {
        assert(is_first_with_id(devices, id, i));
        assert(devices[i].id == id);
    }
}

/// The place that is first with the id is the one that `position_of` gives.
pub proof fn lemma_position_is(devices: Seq<NetView>, id: Seq<char>, i: int)
    requires
        is_first_with_id(devices, id, i),
    ensures
        position_of(devices, id) == Some(i),
{
    lemma_position_of(devices, id);
    lemma_first_is_unique(devices, id, i, position_of(devices, id)->0);
}

/// Removing a device keeps the others apart, and where ids are unique no
/// device with the id is left.
pub proof fn lemma_evicted(devices: Seq<NetView>, id: Seq<char>)
    ensures
        unique_ids(devices) ==> unique_ids(evicted(devices, id)),
        unique_macs(devices) ==> unique_macs(evicted(devices, id)),
        unique_ids(devices) ==> !contains_id(evicted(devices, id), id),
        forall|m: Seq<u8>, other: Seq<char>|
            !mac_conflict(devices, other, Some(m)) ==> !#[trigger] mac_conflict(
                evicted(devices, id),
                other,
                Some(m),
            ),
{
    lemma_position_of(devices, id);
    let after = evicted(devices, id);
    match position_of(devices, id) {
        None => {},
        Some(p) => {
            let n = devices.len() as int;
            let from = |j: int|
                if j == p {
                    n - 1
                } else {
                    j
                };
            assert forall|j: int| 0 <= j < after.len() implies #[trigger] after[j] == devices[from(
                j,
            )] && 0 <= from(j) < n by {}
            if unique_ids(devices) {
                assert forall|i: int, j: int| 0 <= i < j < after.len() implies (
                #[trigger] after[i]).id != (#[trigger] after[j]).id by {
                    let a = from(i);
                    let b = from(j);
                    assert(a != b);
                    if a < b {
                        assert(devices[a].id != devices[b].id);
                    } else {
                        assert(devices[b].id != devices[a].id);
                    }
                }
                assert forall|j: int| 0 <= j < after.len() implies (#[trigger] after[j]).id
                    != id by {
                    let a = from(j);
                    assert(a != p);
                    if a < p {
                        assert(devices[a].id != devices[p].id);
                    } else {
                        assert(devices[p].id != devices[a].id);
                    }
                }
            }
            if unique_macs(devices) {
                assert forall|i: int, j: int|
                    0 <= i < j < after.len() && after[i].guest_mac is Some implies (
                #[trigger] after[i]).guest_mac != (#[trigger] after[j]).guest_mac by {
                    let a = from(i);
                    let b = from(j);
                    assert(a != b);
                    if a < b {
                        assert(devices[a].guest_mac != devices[b].guest_mac);
                    } else {
                        if devices[b].guest_mac is Some {
                            assert(devices[b].guest_mac != devices[a].guest_mac);
                        }
                    }
                }
            }
            assert forall|m: Seq<u8>, other: Seq<char>|
                !mac_conflict(devices, other, Some(m)) implies !#[trigger] mac_conflict(
                after,
                other,
                Some(m),
            ) by {
                if mac_conflict(after, other, Some(m)) {
                    let j = choose|j: int|
                        0 <= j < after.len() && (#[trigger] after[j]).guest_mac == Some(m)
                            && after[j].id != other;
                    let a = from(j);
                    assert(devices[a].guest_mac == Some(m) && devices[a].id != other);
                }
            }
        },
    }
}

/// A device under a fresh id, with an address that nobody holds, keeps the
/// registry well formed.
pub proof fn lemma_push_well_formed(devices: Seq<NetView>, net: NetView)
    requires
        well_formed(devices),
        !contains_id(devices, net.id),
        !mac_conflict(devices, net.id, net.guest_mac),
    ensures
        well_formed(devices.push(net)),
{
    let after = devices.push(net);
    assert forall|i: int, j: int| 0 <= i < j < after.len() implies (#[trigger] after[i]).id != (
    #[trigger] after[j]).id by {
        if j == devices.len() {
            assert(devices[i].id != net.id);
        } else {
            assert(devices[i].id != devices[j].id);
        }
    }
    assert forall|i: int, j: int|
        0 <= i < j < after.len() && after[i].guest_mac is Some implies (
    #[trigger] after[i]).guest_mac != (#[trigger] after[j]).guest_mac by {
        if j == devices.len() {
            assert(devices[i].id != net.id);
            if devices[i].guest_mac == net.guest_mac {
                assert(mac_conflict(devices, net.id, net.guest_mac));
            }
        } else {
            assert(devices[i].guest_mac != devices[j].guest_mac);
        }
    }
}

/// A request to build keeps a well-formed registry well formed, whatever the
/// host answers.
pub proof fn lemma_built_well_formed(devices: Seq<NetView>, cfg: ConfigView, host: HostOutcome)
    requires
        well_formed(devices),
    ensures
        well_formed(built(devices, cfg, host)),
{
    if !mac_conflict(devices, cfg.iface_id, cfg.guest_mac) {
        lemma_evicted(devices, cfg.iface_id);
        let rest = evicted(devices, cfg.iface_id);
        if let Ok(net) = created(cfg, host) {
            if cfg.guest_mac is Some {
                assert(!mac_conflict(rest, cfg.iface_id, Some(cfg.guest_mac->0)));
            }
            lemma_push_well_formed(rest, net);
        }
    }
}

/// A patch keeps a well-formed registry well formed, and touches no id, no
/// host interface and no address.
pub proof fn lemma_updated(devices: Seq<NetView>, update: UpdateView)
    ensures
        updated(devices, update).len() == devices.len(),
        forall|i: int|
            0 <= i < devices.len() ==> {
                let after = #[trigger] updated(devices, update)[i];
                &&& after.id == devices[i].id
                &&& after.iface_name == devices[i].iface_name
                &&& after.guest_mac == devices[i].guest_mac
            },
        well_formed(devices) ==> well_formed(updated(devices, update)),
{
    lemma_position_of(devices, update.iface_id);
    let after = updated(devices, update);
    assert forall|i: int| 0 <= i < devices.len() implies {
        let a = #[trigger] after[i];
        &&& a.id == devices[i].id
        &&& a.iface_name == devices[i].iface_name
        &&& a.guest_mac == devices[i].guest_mac
    } by {}
    if well_formed(devices) {
        assert forall|i: int, j: int| 0 <= i < j < after.len() implies (#[trigger] after[i]).id
            != (#[trigger] after[j]).id by {
            assert(devices[i].id != devices[j].id);
        }
        assert forall|i: int, j: int|
            0 <= i < j < after.len() && after[i].guest_mac is Some implies (
        #[trigger] after[i]).guest_mac != (#[trigger] after[j]).guest_mac by {
            assert(devices[i].guest_mac != devices[j].guest_mac);
        }
    }
}

} // verus!
