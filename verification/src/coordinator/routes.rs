//! What the coordinator does for each request of the Ovey daemon.

use vstd::prelude::*;
use std::time::Instant;
use crate::types::{
    Gid, LeaseDeviceQuery, LeaseDeviceResp, LeaseGidQuery, LeaseGidResp, SetGidQuery, SetGidResp,
};
use crate::coordinator::errors::CoordinatorRestError;
use crate::coordinator::state::{
    Virt, GidEntry, PortModel, DeviceModel, DeviceEntry, NetworkState, CoordState, device_index,
    instant_now, lemma_first_index_some, lemma_first_index_push, gid_unique_in, gid_virt_index, network_gid_unique,
    device_gid_unique,
};

verus! {

/// HTTP status 200.
pub const STATUS_OK: u16 = 200;

/// HTTP status 201.
pub const STATUS_CREATED: u16 = 201;

/// The subnet prefix of the virtual GIDs the coordinator hands out.
pub const DEFULT_GID_PREFIX: u64 = 0xfe80000000000000;

/// Calls `rand::random::<u64>()`. The result is random, so nothing is stated
/// of it.
#[verifier::external_body]
pub fn random_u64() -> u64 {
    rand::random::<u64>()
}

/// A random draw made different from `avoid`: the draw itself, or the draw with
/// its lowest bit flipped where it equals `avoid`.
pub open spec fn differing_from(drawn: u64, avoid: u64) -> u64 {
    if drawn == avoid {
        drawn ^ 1
    } else {
        drawn
    }
}

/// Makes a random draw different from `avoid`, as `differing_from` states.
pub fn differing_from_exec(drawn: u64, avoid: u64) -> (r: u64)
    ensures
        r == differing_from(drawn, avoid),
        r != avoid,
{
    if drawn == avoid {
        assert(drawn ^ 1 != drawn) by (bit_vector);
        drawn ^ 1
    } else {
        drawn
    }
}

/// A virtual LID the coordinator hands out is not 0 and fits in 16 bits.
pub open spec fn lid_valid(lid: Option<Virt<u32>>) -> bool {
    lid matches Some(l) ==> 0 < l.virt < 0x10000
}

/// No two GID translations of a port share a virtual GID.
pub open spec fn virt_gids_unique(gids: Seq<Virt<GidEntry>>) -> bool {
    forall|a: int, b: int|
        0 <= a < gids.len() && 0 <= b < gids.len() && a != b ==> (#[trigger] gids[a]).virt.gid
            != (#[trigger] gids[b]).virt.gid
}

/// Adding a translation whose addresses are new keeps the virtual GIDs apart.
pub proof fn lemma_push_keeps_virt_unique(gids: Seq<Virt<GidEntry>>, g: Virt<GidEntry>)
    requires
        virt_gids_unique(gids),
        gid_unique_in(gids, g),
    ensures
        virt_gids_unique(gids.push(g)),
{
    let n = gids.push(g);
    assert forall|a: int, b: int|
        0 <= a < n.len() && 0 <= b < n.len() && a != b implies (#[trigger] n[a]).virt.gid
        != (#[trigger] n[b]).virt.gid by {
        if a < gids.len() && b < gids.len() {
            assert(n[a] == gids[a] && n[b] == gids[b]);
        } else if a < gids.len() {
            assert(n[a] == gids[a] && n[b] == g);
        } else {
            assert(n[b] == gids[b] && n[a] == g);
        }
    }
}

/// Changing a translation without changing its virtual GID keeps the virtual
/// GIDs apart.
pub proof fn lemma_update_keeps_virt_unique(gids: Seq<Virt<GidEntry>>, k: int, g: Virt<GidEntry>)
    requires
        virt_gids_unique(gids),
        0 <= k < gids.len(),
        g.virt.gid == gids[k].virt.gid,
    ensures
        virt_gids_unique(gids.update(k, g)),
{
    let n = gids.update(k, g);
    assert forall|a: int, b: int|
        0 <= a < n.len() && 0 <= b < n.len() && a != b implies (#[trigger] n[a]).virt.gid
        != (#[trigger] n[b]).virt.gid by {
        assert(n[a].virt.gid == gids[a].virt.gid && n[b].virt.gid == gids[b].virt.gid);
    }
}

/// A device is well formed once leased: it has a GUID, its ports carry the
/// virtual ids 1, 2, ... in order, no port holds more GIDs than its table, no
/// two translations of a port share a virtual GID, and every virtual LID is
/// valid.
pub open spec fn device_wf(d: DeviceModel) -> bool {
    &&& d.guid is Some
    &&& forall|k: int| 0 <= k < d.ports.len() ==> (#[trigger] d.ports[k]).id.virt == k + 1
    &&& forall|k: int|
        0 <= k < d.ports.len() ==> (#[trigger] d.ports[k]).gids.len() <= d.ports[k].gid_tbl_len
    &&& forall|k: int| 0 <= k < d.ports.len() ==> lid_valid((#[trigger] d.ports[k]).lid)
    &&& forall|k: int| 0 <= k < d.ports.len() ==> virt_gids_unique((#[trigger] d.ports[k]).gids)
}

/// Every device of the network is well formed.
pub open spec fn network_wf(net: Seq<DeviceModel>) -> bool {
    forall|i: int| 0 <= i < net.len() ==> device_wf(#[trigger] net[i])
}

/// Every network of the coordinator is well formed.
pub open spec fn coord_wf(s: Map<u128, Seq<DeviceModel>>) -> bool {
    forall|n: u128| #[trigger] s.contains_key(n) ==> network_wf(s[n])
}

/// The devices of `network`, or none where the network is not known.
pub open spec fn network_or_empty(s: Map<u128, Seq<DeviceModel>>, network: u128) -> Seq<
    DeviceModel,
> {
    if s.contains_key(network) {
        s[network]
    } else {
        Seq::empty()
    }
}

/// A device leased for the first time with the real GUID `guid` and the
/// virtual GUID `virt`.
pub open spec fn leased_device(device: u128, guid: u64, virt: u64) -> DeviceModel {
    DeviceModel {
        device: device,
        guid: Some(Virt { real: guid, virt: virt }),
        ports: Seq::empty(),
        qps: Seq::empty(),
    }
}

/// Leasing a GUID for `device`: a known device keeps its virtual GUID (and the
/// answer is "not created"); an unknown one is added with the virtual GUID
/// `virt` (and the answer is "created"). Gives the new devices, whether the
/// device was created, and the virtual GUID.
pub open spec fn lease_device_model(net: Seq<DeviceModel>, device: u128, guid: u64, virt: u64) -> (
    Seq<DeviceModel>,
    bool,
    u64,
) {
    match device_index(net, device) {
        Some(i) => (net, false, net[i].guid->0.virt),
        None => (net.push(leased_device(device, guid, virt)), true, virt),
    }
}

/// The lease times of a network after the lease of the device at position `i`
/// was renewed at `now`: that device's time is `now` (where it is new, it is
/// appended with that time), and every other device keeps its time.
pub open spec fn lease_renewed(before: Seq<Instant>, after: Seq<Instant>, i: int, now: Instant) -> bool {
    &&& after == (if i < before.len() {
        before.update(i, now)
    } else {
        before.push(now)
    })
    &&& 0 <= i < after.len()
    &&& after[i] == now
}

/// The lease times of the devices of `network`, none where it is not known.
pub open spec fn lease_times_of(s: Map<u128, Seq<DeviceModel>>, t: Map<u128, Seq<Instant>>, network: u128) -> Seq<
    Instant,
> {
    if s.contains_key(network) {
        t[network]
    } else {
        Seq::empty()
    }
}

/// The devices of a network after the port at position `pi` of the device at
/// position `di` became `p`.
pub open spec fn update_port(net: Seq<DeviceModel>, di: int, pi: int, p: PortModel) -> Seq<
    DeviceModel,
> {
    net.update(di, DeviceModel { ports: net[di].ports.update(pi, p), ..net[di] })
}

/// The largest virtual table index of the GID translations (0 for none).
pub open spec fn max_virt_idx(gids: Seq<Virt<GidEntry>>) -> u32
    decreases gids.len(),
{
    if gids.len() == 0 {
        0
    } else {
        let m = max_virt_idx(gids.drop_last());
        if gids.last().virt.idx > m {
            gids.last().virt.idx
        } else {
            m
        }
    }
}

/// The virtual table index of the next GID handed out on a port: one more than
/// the largest so far, or 0 for the first.
pub open spec fn next_gid_idx(gids: Seq<Virt<GidEntry>>) -> int {
    if gids.len() == 0 {
        0
    } else {
        max_virt_idx(gids) + 1
    }
}

/// The translation a GID lease adds: the next virtual index with a GID of the
/// default prefix and the interface id `iface`, for the real GID of the query.
pub open spec fn lease_gid_pair(gids: Seq<Virt<GidEntry>>, q: LeaseGidQuery, iface: u64) -> Virt<
    GidEntry,
> {
    Virt {
        virt: GidEntry {
            idx: next_gid_idx(gids) as u32,
            gid: Gid { subnet_prefix: DEFULT_GID_PREFIX, interface_id: iface },
        },
        real: GidEntry { idx: q.idx, gid: q.gid },
    }
}

/// A reserved GID (interface id 0) or a loopback GID (interface id 1): neither
/// is ever leased.
pub open spec fn reserved_or_loopback(g: Gid) -> bool {
    g.interface_id == 0 || g.interface_id == 1
}

/// Leasing a virtual GID on port `port_id` of `device` for the real GID of the
/// query, where `iface` is the interface id of the new virtual GID. Gives the
/// new devices and the answer.
pub open spec fn gid_post_model(
    net: Seq<DeviceModel>,
    network: u128,
    device: u128,
    port_id: u16,
    q: LeaseGidQuery,
    iface: u64,
) -> (Seq<DeviceModel>, Result<LeaseGidResp, CoordinatorRestError>) {
    if reserved_or_loopback(q.gid) {
        (net, Err(CoordinatorRestError::GidReserved))
    } else {
        match device_index(net, device) {
            None => (net, Err(CoordinatorRestError::DeviceUuidNotFound(network, device))),
            Some(di) => if port_id - 1 >= net[di].ports.len() {
                (net, Err(CoordinatorRestError::PortNotFound(device, port_id)))
            } else {
                let pi = port_id - 1;
                let port = net[di].ports[pi];
                let g = lease_gid_pair(port.gids, q, iface);
                if gid_unique_in(port.gids, g) && port.gids.len() < port.gid_tbl_len {
                    (
                        update_port(net, di, pi, PortModel { gids: port.gids.push(g), ..port }),
                        Ok(LeaseGidResp { idx: g.virt.idx, gid: g.virt.gid }),
                    )
                } else {
                    (net, Err(CoordinatorRestError::GidConflict))
                }
            },
        }
    }
}

/// The inputs on which a GID lease completes: a reserved or loopback GID is
/// refused before anything else; otherwise port ids count from 1, the next
/// virtual index must not overflow, and a lease that is stored must have been
/// asked for at exactly that index.
pub open spec fn gid_post_defined(
    net: Seq<DeviceModel>,
    device: u128,
    port_id: u16,
    q: LeaseGidQuery,
    iface: u64,
) -> bool {
    reserved_or_loopback(q.gid) || match device_index(net, device) {
        None => true,
        Some(di) => port_id >= 1 && (port_id - 1 < net[di].ports.len() ==> {
            let port = net[di].ports[port_id - 1];
            &&& (port.gids.len() > 0 ==> max_virt_idx(port.gids) < u32::MAX)
            &&& (gid_unique_in(port.gids, lease_gid_pair(port.gids, q, iface)) && port.gids.len()
                < port.gid_tbl_len ==> next_gid_idx(port.gids) == q.idx)
        }),
    }
}

/// The largest virtual table index of the GID translations, as `max_virt_idx`
/// states.
fn max_virt_idx_exec(gids: &[Virt<GidEntry>]) -> (r: u32)
    ensures
        r == max_virt_idx(gids@),
{
    let mut m: u32 = 0;
    let mut i: usize = 0;
    while i < gids.len()
        invariant
            i <= gids@.len(),
            m == max_virt_idx(gids@.subrange(0, i as int)),
        decreases gids@.len() - i,
    {
        let ghost next = gids@.subrange(0, i as int + 1);
        assert(next.drop_last() =~= gids@.subrange(0, i as int));
        if gids[i].virt.idx > m {
            m = gids[i].virt.idx;
        }
        i = i + 1;
    }
    assert(gids@.subrange(0, gids@.len() as int) =~= gids@);
    m
}

/// The next virtual GID index of a port, as `next_gid_idx` states.
fn next_gid_idx_exec(gids: &[Virt<GidEntry>]) -> (r: u32)
    requires
        gids@.len() > 0 ==> max_virt_idx(gids@) < u32::MAX,
    ensures
        r == next_gid_idx(gids@),
{
    if gids.len() == 0 {
        return 0;
    }
    max_virt_idx_exec(gids) + 1
}

impl NetworkState {
    /// Leases a virtual GUID for `device`, with `virt_guid` as the virtual GUID of
    /// a device not seen before; `now` renews the lease.
    pub fn lease_device(&mut self, device: u128, query: LeaseDeviceQuery, virt_guid: u64, now: Instant) -> (r: (
        bool,
        LeaseDeviceResp,
    ))
        requires
            network_wf(old(self)@),
        ensures
            (final(self)@, r.0, r.1.guid) == lease_device_model(old(self)@, device, query.guid, virt_guid),
            network_wf(final(self)@),
            lease_renewed(
                old(self).devices.lease_times(),
                final(self).devices.lease_times(),
                device_index(final(self)@, device)->0,
                now,
            ),
    {
        proof {
            self.devices.lemma_lease_times_len();
        }
        match self.devices.by_device(device) {
            Some(d) => {
                proof {
                    lemma_first_index_some(old(self)@, |m: DeviceModel| m.device == device);
                }
                d.renew_lease(now);
                let guid = d.device_guid();
                let virt = guid.unwrap().virt;
                proof {
                    final(self).devices.lemma_lease_times_len();
                }
                (false, LeaseDeviceResp { guid: virt })
            },
            None => {
                let mut entry = DeviceEntry::new(device);
                entry.set_guid(Virt { real: query.guid, virt: virt_guid });
                entry.renew_lease(now);
                self.devices.insert(entry);
                proof {
                    final(self).devices.lemma_lease_times_len();
                    lemma_first_index_push(old(self)@, |m: DeviceModel| m.device == device, entry@);
                    assert(final(self)@.last() == leased_device(device, query.guid, virt_guid));
                    assert(network_wf(final(self)@)) by {
                        assert forall|i: int| 0 <= i < final(self)@.len() implies device_wf(
                            #[trigger] final(self)@[i],
                        ) by {
                            if i < old(self)@.len() {
                                assert(final(self)@[i] == old(self)@[i]);
                            }
                        }
                    }
                }
                (true, LeaseDeviceResp { guid: virt_guid })
            },
        }
    }
}

impl NetworkState {
    /// Leases a virtual GID on port `port_id` of `device` for the real GID of the
    /// query; `iface` is the interface id of the new virtual GID.
    pub fn gid_post(
        &mut self,
        network: u128,
        device: u128,
        port_id: u16,
        query: LeaseGidQuery,
        iface: u64,
    ) -> (r: Result<LeaseGidResp, CoordinatorRestError>)
        requires
            network_wf(old(self)@),
            gid_post_defined(old(self)@, device, port_id, query, iface),
        ensures
            (final(self)@, r) == gid_post_model(old(self)@, network, device, port_id, query, iface),
            network_wf(final(self)@),
    {
        if query.gid.is_reserved() || query.gid.is_loopback() {
            return Err(CoordinatorRestError::GidReserved);
        }
        let ghost old_net = self@;
        let dev = match self.devices.by_device(device) {
            Some(d) => d,
            None => {
                return Err(CoordinatorRestError::DeviceUuidNotFound(network, device));
            },
        };
        proof {
            lemma_first_index_some(old_net, |m: DeviceModel| m.device == device);
        }
        let ghost di = device_index(old_net, device)->0;
        let port = match dev.get_port_mut(port_id) {
            Some(p) => p,
            None => {
                assert(old_net.update(di, old_net[di]) =~= old_net);
                return Err(CoordinatorRestError::PortNotFound(device, port_id));
            },
        };
        let ghost pi = port_id - 1;
        let ghost old_port = old_net[di].ports[pi];
        let idx = next_gid_idx_exec(port.iter_gid());
        let entry = GidEntry {
            idx: idx,
            gid: Gid { subnet_prefix: DEFULT_GID_PREFIX, interface_id: iface },
        };
        let pair = Virt {
            virt: entry,
            real: GidEntry {
                idx: query.idx,
                gid: Gid {
                    subnet_prefix: query.gid.subnet_prefix,
                    interface_id: query.gid.interface_id,
                },
            },
        };
        assert(pair == lease_gid_pair(old_port.gids, query, iface));
        match port.add_gid(pair) {
            Ok(()) => {},
            Err(e) => {
                assert(old_net[di].ports.update(pi, old_port) =~= old_net[di].ports);
                assert(old_net.update(di, old_net[di]) =~= old_net);
                return Err(e);
            },
        }
        proof {
            assert(device_wf(old_net[di]));
            assert(virt_gids_unique(old_port.gids));
            lemma_push_keeps_virt_unique(old_port.gids, pair);
            lemma_update_port_wf(old_net, di, pi, final(port)@);
        }
        Ok(LeaseGidResp { idx: entry.idx, gid: entry.gid })
    }
}

/// The translation a GID store asks for.
pub open spec fn set_gid_pair(q: SetGidQuery) -> Virt<GidEntry> {
    Virt {
        virt: GidEntry { idx: q.virt_idx, gid: q.virt },
        real: GidEntry { idx: q.real_idx, gid: q.real },
    }
}

/// The answer to a GID store that succeeded: the translation asked for.
pub open spec fn set_gid_resp(q: SetGidQuery) -> SetGidResp {
    SetGidResp { real_idx: q.real_idx, real: q.real, virt_idx: q.virt_idx, virt: q.virt }
}

/// Storing the translation of the query on port `port_id` of `device`: where the
/// port already has an entry with the same virtual side, its real side is
/// replaced; otherwise the translation is added if no port of the network has
/// its virtual or its real address and the GID table has room. Gives the new
/// devices and the answer.
pub open spec fn gid_put_model(
    net: Seq<DeviceModel>,
    network: u128,
    device: u128,
    port_id: u16,
    q: SetGidQuery,
) -> (Seq<DeviceModel>, Result<SetGidResp, CoordinatorRestError>) {
    let g = set_gid_pair(q);
    match device_index(net, device) {
        None => (net, Err(CoordinatorRestError::DeviceUuidNotFound(network, device))),
        Some(di) => if port_id - 1 >= net[di].ports.len() {
            (net, Err(CoordinatorRestError::PortNotFound(device, port_id)))
        } else {
            let pi = port_id - 1;
            let port = net[di].ports[pi];
            match gid_virt_index(port.gids, g.virt) {
                Some(k) => (
                    update_port(net, di, pi, PortModel { gids: port.gids.update(k, g), ..port }),
                    Ok(set_gid_resp(q)),
                ),
                None => if network_gid_unique(net, g) && port.gids.len() < port.gid_tbl_len {
                    (
                        update_port(net, di, pi, PortModel { gids: port.gids.push(g), ..port }),
                        Ok(set_gid_resp(q)),
                    )
                } else {
                    (net, Err(CoordinatorRestError::GidConflict))
                },
            }
        },
    }
}

/// Port `pi` of device `di` changed only in its GIDs, which stay within its table,
/// and in its LID, which stays valid: the network stays well formed.
pub proof fn lemma_update_port_wf(net: Seq<DeviceModel>, di: int, pi: int, p: PortModel)
    requires
        network_wf(net),
        0 <= di < net.len(),
        0 <= pi < net[di].ports.len(),
        p.id == net[di].ports[pi].id,
        p.gids.len() <= p.gid_tbl_len,
        p.lid == net[di].ports[pi].lid || lid_valid(p.lid),
        p.gids == net[di].ports[pi].gids || virt_gids_unique(p.gids),
    ensures
        network_wf(update_port(net, di, pi, p)),
{
    let new_net = update_port(net, di, pi, p);
    assert(device_wf(net[di]));
    assert(lid_valid(net[di].ports[pi].lid));
    assert(virt_gids_unique(net[di].ports[pi].gids));
    assert forall|i: int| 0 <= i < new_net.len() implies device_wf(#[trigger] new_net[i]) by {
        if i == di {
            let d = new_net[i];
            assert forall|k: int| 0 <= k < d.ports.len() implies (#[trigger] d.ports[k]).id.virt
                == k + 1 && d.ports[k].gids.len() <= d.ports[k].gid_tbl_len && lid_valid(
                d.ports[k].lid,
            ) && virt_gids_unique(d.ports[k].gids) by {
                if k != pi {
                    assert(d.ports[k] == net[di].ports[k]);
                }
            }
        }
    }
}

impl NetworkState {
    /// Stores the GID translation of the query on port `port_id` of `device`.
    pub fn gid_put(&mut self, network: u128, device: u128, port_id: u16, query: SetGidQuery) -> (r:
        Result<SetGidResp, CoordinatorRestError>)
        requires
            network_wf(old(self)@),
            device_index(old(self)@, device) is Some ==> port_id >= 1,
        ensures
            (final(self)@, r) == gid_put_model(old(self)@, network, device, port_id, query),
            network_wf(final(self)@),
    {
        let new_addr = Virt {
            virt: GidEntry { idx: query.virt_idx, gid: query.virt },
            real: GidEntry { idx: query.real_idx, gid: query.real },
        };
        let resp = SetGidResp {
            real_idx: query.real_idx,
            real: query.real,
            virt_idx: query.virt_idx,
            virt: query.virt,
        };
        let ghost old_net = self@;
        let di = match self.devices.position(device) {
            Some(i) => i,
            None => {
                return Err(CoordinatorRestError::DeviceUuidNotFound(network, device));
            },
        };
        proof {
            lemma_first_index_some(old_net, |m: DeviceModel| m.device == device);
        }
        let devs = self.devices.iter();
        let ports = devs[di].iter_port();
        let pi = (port_id - 1) as usize;
        if pi >= ports.len() {
            return Err(CoordinatorRestError::PortNotFound(device, port_id));
        }
        let ghost old_port = old_net[di as int].ports[pi as int];
        let found = ports[pi].find_gid_by_virt(new_addr.virt);
        match found {
            Some(k) => {
                let dev = match self.devices.by_device(device) {
                    Some(d) => d,
                    None => {
                        return Err(CoordinatorRestError::DeviceUuidNotFound(network, device));
                    },
                };
                let port = match dev.get_port_mut(port_id) {
                    Some(p) => p,
                    None => {
                        return Err(CoordinatorRestError::PortNotFound(device, port_id));
                    },
                };
                proof {
                    lemma_first_index_some(
                        old_port.gids,
                        |e: Virt<GidEntry>| e.virt == new_addr.virt,
                    );
                }
                port.set_gid_real(k, new_addr.real);
                proof {
                    assert(final(port)@ == (PortModel {
                        gids: old_port.gids.update(k as int, new_addr),
                        ..old_port
                    }));
                    assert(device_wf(old_net[di as int]));
                    assert(virt_gids_unique(old_port.gids));
                    lemma_update_keeps_virt_unique(
                        old_port.gids,
                        k as int,
                        Virt { real: new_addr.real, virt: old_port.gids[k as int].virt },
                    );
                    lemma_update_port_wf(old_net, di as int, pi as int, final(port)@);
                }
                Ok(resp)
            },
            None => {
                if !self.is_gid_unique(new_addr) {
                    return Err(CoordinatorRestError::GidConflict);
                }
                proof {
                    assert(device_gid_unique(old_net[di as int], new_addr));
                    assert(gid_unique_in(old_net[di as int].ports[pi as int].gids, new_addr));
                }
                let dev = match self.devices.by_device(device) {
                    Some(d) => d,
                    None => {
                        return Err(CoordinatorRestError::DeviceUuidNotFound(network, device));
                    },
                };
                let port = match dev.get_port_mut(port_id) {
                    Some(p) => p,
                    None => {
                        return Err(CoordinatorRestError::PortNotFound(device, port_id));
                    },
                };
                match port.add_gid(new_addr) {
                    Ok(()) => {},
                    Err(e) => {
                        assert(old_net[di as int].ports.update(pi as int, old_port)
                            =~= old_net[di as int].ports);
                        assert(old_net.update(di as int, old_net[di as int]) =~= old_net);
                        return Err(e);
                    },
                }
                proof {
                    assert(device_wf(old_net[di as int]));
                    assert(virt_gids_unique(old_port.gids));
                    lemma_push_keeps_virt_unique(old_port.gids, new_addr);
                    lemma_update_port_wf(old_net, di as int, pi as int, final(port)@);
                }
                Ok(resp)
            },
        }
    }
}


/// A GID lease in `network` completes whatever interface id is drawn for the new
/// virtual GID: a reserved or loopback GID is refused before anything else;
/// otherwise port ids count from 1, the next virtual index does not overflow
/// and, where the lease can be stored for some draw (the table has room and no
/// translation has the real GID), it is the index the query asks for.
pub open spec fn gid_post_ready(
    s: Map<u128, Seq<DeviceModel>>,
    network: u128,
    device: u128,
    port_id: u16,
    q: LeaseGidQuery,
) -> bool {
    s.contains_key(network) && !reserved_or_loopback(q.gid) ==> match device_index(s[network], device) {
        None => true,
        Some(di) => port_id >= 1 && (port_id - 1 < s[network][di].ports.len() ==> {
            let port = s[network][di].ports[port_id - 1];
            &&& (port.gids.len() > 0 ==> max_virt_idx(port.gids) < u32::MAX)
            &&& (port.gids.len() < port.gid_tbl_len && real_gid_free(port.gids, q.gid)
                ==> next_gid_idx(port.gids) == q.idx)
        }),
    }
}

/// No translation has the real GID `g`.
pub open spec fn real_gid_free(gids: Seq<Virt<GidEntry>>, g: Gid) -> bool {
    forall|i: int| 0 <= i < gids.len() ==> (#[trigger] gids[i]).real.gid != g
}

/// A request handled within `network`, where `step` is what handling it does to
/// the devices of that network: an unknown network is refused and left alone.
pub open spec fn in_network<R>(
    s: Map<u128, Seq<DeviceModel>>,
    network: u128,
    step: (Seq<DeviceModel>, Result<R, CoordinatorRestError>),
) -> (Map<u128, Seq<DeviceModel>>, Result<R, CoordinatorRestError>) {
    if !s.contains_key(network) {
        (s, Err(CoordinatorRestError::NetworkUuidNotFound(network)))
    } else {
        (s.insert(network, step.0), step.1)
    }
}

/// Every network stays well formed when one of them is replaced by a well
/// formed one.
pub proof fn lemma_coord_wf_insert(s: Map<u128, Seq<DeviceModel>>, network: u128, net: Seq<DeviceModel>)
    requires
        coord_wf(s),
        network_wf(net),
    ensures
        coord_wf(s.insert(network, net)),
{
    assert forall|n: u128| #[trigger] s.insert(network, net).contains_key(n) implies network_wf(
        s.insert(network, net)[n],
    ) by {
        if n != network {
            assert(s.contains_key(n));
        }
    }
}

impl CoordState {
    /// Leases a virtual GUID for `device` in `network` (registering the network
    /// where it is not known), with `virt_guid` as the virtual GUID of a device
    /// not seen before. Answers "created" (201) for a new device and "ok" (200)
    /// for a known one.
    pub fn guid_post_with(
        &mut self,
        network: u128,
        device: u128,
        query: LeaseDeviceQuery,
        virt_guid: u64,
        now: Instant,
    ) -> (r: (u16, LeaseDeviceResp))
        requires
            coord_wf(old(self)@),
        ensures
            ({
                let (net, created, virt) = lease_device_model(
                    network_or_empty(old(self)@, network),
                    device,
                    query.guid,
                    virt_guid,
                );
                &&& final(self)@ == old(self)@.insert(network, net)
                &&& r.0 == (if created {
                    STATUS_CREATED
                } else {
                    STATUS_OK
                })
                &&& r.1.guid == virt
            }),
            coord_wf(final(self)@),
            lease_renewed(
                lease_times_of(old(self)@, old(self).lease_times(), network),
                final(self).lease_times()[network],
                device_index(final(self)@[network], device)->0,
                now,
            ),
            final(self).lease_times() == old(self).lease_times().insert(
                network,
                final(self).lease_times()[network],
            ),
    {
        let mut net = match self.take_network(network) {
            Some(n) => n,
            None => NetworkState::new(),
        };
        let (created, resp) = net.lease_device(device, query, virt_guid, now);
        self.put_network(network, net);
        assert(coord_wf(final(self)@)) by {
            assert forall|n: u128| #[trigger] final(self)@.contains_key(n) implies network_wf(
                final(self)@[n],
            ) by {
                if n != network {
                    assert(old(self)@.contains_key(n));
                }
            }
        }
        if created {
            (STATUS_CREATED, resp)
        } else {
            (STATUS_OK, resp)
        }
    }

    /// Leases a virtual GUID for `device` in `network`: a device not seen
    /// before gets a random virtual GUID. See [`CoordState::guid_post_with`].
    pub fn route_guid_post(&mut self, network: u128, device: u128, query: LeaseDeviceQuery) -> (r: (
        u16,
        LeaseDeviceResp,
    ))
        requires
            coord_wf(old(self)@),
        ensures
            exists|virt_guid: u64|
                #![trigger lease_device_model(network_or_empty(old(self)@, network), device, query.guid, virt_guid)]
                {
                    let (net, created, virt) = lease_device_model(
                        network_or_empty(old(self)@, network),
                        device,
                        query.guid,
                        virt_guid,
                    );
                    &&& virt_guid != query.guid
                    &&& final(self)@ == old(self)@.insert(network, net)
                    &&& r.0 == (if created {
                        STATUS_CREATED
                    } else {
                        STATUS_OK
                    })
                    &&& r.1.guid == virt
                },
            coord_wf(final(self)@),
            exists|now: Instant|
                #[trigger] lease_renewed(
                    lease_times_of(old(self)@, old(self).lease_times(), network),
                    final(self).lease_times()[network],
                    device_index(final(self)@[network], device)->0,
                    now,
                ),
            final(self).lease_times() == old(self).lease_times().insert(
                network,
                final(self).lease_times()[network],
            ),
    {
        let virt_guid = differing_from_exec(random_u64(), query.guid);
        let now = instant_now();
        self.guid_post_with(network, device, query, virt_guid, now)
    }

    /// Leases a virtual GID on port `port_id` of `device` in `network` for the real
    /// GID of the query, where `iface` is the interface id of the new virtual GID.
    pub fn gid_post_with(
        &mut self,
        network: u128,
        device: u128,
        port_id: u16,
        query: LeaseGidQuery,
        iface: u64,
    ) -> (r: Result<LeaseGidResp, CoordinatorRestError>)
        requires
            coord_wf(old(self)@),
            old(self)@.contains_key(network) ==> gid_post_defined(
                old(self)@[network],
                device,
                port_id,
                query,
                iface,
            ),
        ensures
            (final(self)@, r) == in_network(
                old(self)@,
                network,
                gid_post_model(old(self)@[network], network, device, port_id, query, iface),
            ),
            coord_wf(final(self)@),
    {
        let mut net = match self.take_network(network) {
            Some(n) => n,
            None => {
                assert(old(self)@.remove(network) =~= old(self)@);
                return Err(CoordinatorRestError::NetworkUuidNotFound(network));
            },
        };
        let r = net.gid_post(network, device, port_id, query, iface);
        self.put_network(network, net);
        proof {
            lemma_coord_wf_insert(old(self)@, network, final(self)@[network]);
            assert(final(self)@ =~= old(self)@.insert(network, final(self)@[network]));
        }
        r
    }

    /// Leases a virtual GID with a random interface id on port `port_id` of
    /// `device` in `network`. See [`CoordState::gid_post_with`].
    pub fn route_gid_post(
        &mut self,
        network: u128,
        device: u128,
        port_id: u16,
        query: LeaseGidQuery,
    ) -> (r: Result<LeaseGidResp, CoordinatorRestError>)
        requires
            coord_wf(old(self)@),
            gid_post_ready(old(self)@, network, device, port_id, query),
        ensures
            exists|iface: u64|
                iface != query.gid.interface_id && (final(self)@, r) == #[trigger] in_network(
                    old(self)@,
                    network,
                    gid_post_model(old(self)@[network], network, device, port_id, query, iface),
                ),
            coord_wf(final(self)@),
    {
        let iface = differing_from_exec(random_u64(), query.gid.interface_id);
        self.gid_post_with(network, device, port_id, query, iface)
    }

    /// Stores the GID translation of the query on port `port_id` of `device` in
    /// `network`.
    pub fn route_gid_put(&mut self, network: u128, device: u128, port_id: u16, query: SetGidQuery) -> (r:
        Result<SetGidResp, CoordinatorRestError>)
        requires
            coord_wf(old(self)@),
            old(self)@.contains_key(network) && device_index(old(self)@[network], device) is Some
                ==> port_id >= 1,
        ensures
            (final(self)@, r) == in_network(
                old(self)@,
                network,
                gid_put_model(old(self)@[network], network, device, port_id, query),
            ),
            coord_wf(final(self)@),
    {
        let mut net = match self.take_network(network) {
            Some(n) => n,
            None => {
                assert(old(self)@.remove(network) =~= old(self)@);
                return Err(CoordinatorRestError::NetworkUuidNotFound(network));
            },
        };
        let r = net.gid_put(network, device, port_id, query);
        self.put_network(network, net);
        proof {
            lemma_coord_wf_insert(old(self)@, network, final(self)@[network]);
            assert(final(self)@ =~= old(self)@.insert(network, final(self)@[network]));
        }
        r
    }

    /// Whether a GID lease with these arguments completes (see `gid_post_ready`).
    pub fn gid_post_is_ready(&self, network: u128, device: u128, port_id: u16, query: LeaseGidQuery) -> (r: bool)
        ensures
            r == gid_post_ready(self@, network, device, port_id, query),
    {
        let net = match self.network(network) {
            Some(n) => n,
            None => {
                return true;
            },
        };
        if query.gid.is_reserved() || query.gid.is_loopback() {
            return true;
        }
        let devs = net.devices.iter();
        let di = match net.devices.position(device) {
            Some(i) => i,
            None => {
                return true;
            },
        };
        proof {
            lemma_first_index_some(net@, |m: DeviceModel| m.device == device);
        }
        if port_id < 1 {
            return false;
        }
        let ports = devs[di].iter_port();
        let pi = (port_id - 1) as usize;
        if pi >= ports.len() {
            return true;
        }
        let gids = ports[pi].iter_gid();
        assert(gids@ == self@[network][di as int].ports[pi as int].gids);
        assert(ports@[pi as int]@ == self@[network][di as int].ports[pi as int]);
        let mut free = true;
        let mut k: usize = 0;
        while k < gids.len()
            invariant
                k <= gids@.len(),
                free == (forall|j: int| 0 <= j < k ==> (#[trigger] gids@[j]).real.gid != query.gid),
            decreases gids@.len() - k,
        {
            if gids[k].real.is_same_addr(&GidEntry { idx: 0, gid: query.gid }) {
                free = false;
            }
            k = k + 1;
        }
        let room = gids.len() < ports[pi].gid_table_len() as usize;
        if gids.len() > 0 {
            let m = max_virt_idx_exec(gids);
            m < u32::MAX && (!(room && free) || m + 1 == query.idx)
        } else {
            !(room && free) || query.idx == 0
        }
    }
}

} // verus!
