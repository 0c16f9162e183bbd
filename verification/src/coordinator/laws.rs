//! Properties of the coordinator that span several requests.

use vstd::prelude::*;
use crate::coordinator::errors::CoordinatorRestError;
use crate::types::{Gid, LeaseGidQuery, LeaseGidResp, SetGidQuery, SetGidResp, SetPortAttrQuery, ResolveQpQuery, ResolveQpResp};
use crate::coordinator::state::{
    Virt, GidEntry, PortModel, DeviceModel, device_index, gid_virt_index, first_index,
    lemma_first_index_is, lemma_first_index_some, lemma_first_index_none, gid_unique_in,
    device_gid_unique, network_gid_unique,
};
use crate::coordinator::routes::{
    network_or_empty, lease_device_model, update_port, network_wf, device_wf, lid_valid,
    lemma_update_port_wf, gid_put_model, set_gid_pair, set_gid_resp, gid_post_model, virt_gids_unique,
    lease_gid_pair, DEFULT_GID_PREFIX, in_network,
};
use crate::coordinator::ports::{
    port_attr_model, create_qp_model, qp_virt_number, port_post_model, pick_lid, lemma_pick_lid_usable,
};
use crate::coordinator::resolve::{
    ports_gid_find, gid_addr_index, gid_device_index, port_lid_index, lid_device_index, qp_index,
    resolve_gid_model, resolve_lid_model, resolve_qpn_model, resolve_qp_model,
};

verus! {

/// A device that was pushed onto a network where no device had its UUID is
/// found at the end.
proof fn lemma_device_index_push(net: Seq<DeviceModel>, d: DeviceModel)
    requires
        device_index(net, d.device) is None,
    ensures
        device_index(net.push(d), d.device) == Some(net.len() as int),
{
    let s = net.push(d);
    assert forall|j: int| 0 <= j < net.len() implies !((#[trigger] s[j]).device == d.device) by {
        assert(s[j] == net[j]);
        if s[j].device == d.device {
            lemma_first_index_is(net, |m: DeviceModel| m.device == d.device, j);
            assert(false);
        }
    }
    lemma_first_index_is(s, |m: DeviceModel| m.device == d.device, net.len() as int);
}

/// Leasing a GUID for a device a second time answers "not created", gives the
/// same virtual GUID as the first lease and changes nothing, whatever GUIDs the
/// two requests carry.
pub proof fn law_guid_lease_stable(
    s: Map<u128, Seq<DeviceModel>>,
    network: u128,
    device: u128,
    guid1: u64,
    virt1: u64,
    guid2: u64,
    virt2: u64,
)
    ensures
        ({
            let (net1, created1, g1) = lease_device_model(
                network_or_empty(s, network),
                device,
                guid1,
                virt1,
            );
            let s1 = s.insert(network, net1);
            let (net2, created2, g2) = lease_device_model(
                network_or_empty(s1, network),
                device,
                guid2,
                virt2,
            );
            !created2 && g2 == g1 && net2 == net1
        }),
{
    let net = network_or_empty(s, network);
    match device_index(net, device) {
        Some(i) => {},
        None => {
            let d = DeviceModel {
                device: device,
                guid: Some(Virt { real: guid1, virt: virt1 }),
                ports: Seq::empty(),
                qps: Seq::empty(),
            };
            lemma_device_index_push(net, d);
        },
    }
}

/// Asking for the virtual LID of a port a second time with the same real LID
/// gives the same answer and changes nothing, whatever candidate the second
/// request has.
pub proof fn law_port_attr_stable(
    net: Seq<DeviceModel>,
    network: u128,
    device: u128,
    port_id: u16,
    q: SetPortAttrQuery,
    cand1: u16,
    cand2: u16,
)
    requires
        device_index(net, device) is Some ==> port_id >= 1,
    ensures
        ({
            let (net1, r1) = port_attr_model(net, network, device, port_id, q, cand1);
            let (net2, r2) = port_attr_model(net1, network, device, port_id, q, cand2);
            r2 == r1 && net2 == net1
        }),
{
    let (net1, r1) = port_attr_model(net, network, device, port_id, q, cand1);
    match device_index(net, device) {
        None => {},
        Some(di) => {
            lemma_first_index_some(net, |m: DeviceModel| m.device == device);
            if port_id - 1 < net[di].ports.len() {
                let pi = port_id - 1;
                let port = net[di].ports[pi];
                match port.lid {
                    Some(l) if l.real == q.lid => {
                        assert(net1 == net);
                    },
                    _ => {
                        let p1 = PortModel { lid: Some(Virt { real: q.lid, virt: pick_lid(cand1, port.lid) as u32 }), ..port };
                        assert(net1 == update_port(net, di, pi, p1));
                        assert(net1[di].ports[pi] == p1);
                        assert(net1[di].ports.update(pi, p1) =~= net1[di].ports);
                        assert(net1.update(di, net1[di]) =~= net1);
                    },
                }
                assert forall|j: int| 0 <= j < di implies !((#[trigger] net1[j]).device == device) by {
                    assert(net1[j] == net[j]);
                }
                lemma_first_index_is(net1, |m: DeviceModel| m.device == device, di);
            }
        },
    }
}

/// Storing the same GID translation twice: the second store gives the same
/// answer as the first and changes nothing, where the first succeeded.
pub proof fn law_gid_put_idempotent(
    net: Seq<DeviceModel>,
    network: u128,
    device: u128,
    port_id: u16,
    q: SetGidQuery,
)
    requires
        device_index(net, device) is Some ==> port_id >= 1,
        gid_put_model(net, network, device, port_id, q).1 is Ok,
    ensures
        ({
            let (net1, r1) = gid_put_model(net, network, device, port_id, q);
            let (net2, r2) = gid_put_model(net1, network, device, port_id, q);
            r2 == r1 && net2 == net1
        }),
{
    let g = set_gid_pair(q);
    let (net1, r1) = gid_put_model(net, network, device, port_id, q);
    let di = device_index(net, device)->0;
    let pi = port_id - 1;
    lemma_first_index_some(net, |m: DeviceModel| m.device == device);
    assert forall|j: int| 0 <= j < di implies !((#[trigger] net1[j]).device == device) by {
        assert(net1[j] == net[j]);
    }
    lemma_first_index_is(net1, |m: DeviceModel| m.device == device, di);
    let port = net[di].ports[pi];
    let port1 = net1[di].ports[pi];
    match gid_virt_index(port.gids, g.virt) {
        Some(k) => {
            lemma_first_index_some(port.gids, |e: Virt<GidEntry>| e.virt == g.virt);
            assert(net1 == update_port(net, di, pi, PortModel { gids: port.gids.update(k, g), ..port }));
            assert(port1 == PortModel { gids: port.gids.update(k, g), ..port });
            assert forall|j: int| 0 <= j < k implies !((#[trigger] port1.gids[j]).virt == g.virt) by {
                assert(port1.gids[j] == port.gids[j]);
            }
            lemma_first_index_is(port1.gids, |e: Virt<GidEntry>| e.virt == g.virt, k);
            assert(port1.gids.update(k, g) =~= port1.gids);
            assert(net1[di].ports.update(pi, port1) =~= net1[di].ports);
            assert(net1.update(di, net1[di]) =~= net1);
        },
        None => {
            let n = port.gids.len() as int;
            assert(net1 == update_port(net, di, pi, PortModel { gids: port.gids.push(g), ..port }));
            assert(port1 == PortModel { gids: port.gids.push(g), ..port });
            assert forall|j: int| 0 <= j < n implies !((#[trigger] port1.gids[j]).virt == g.virt) by {
                assert(port1.gids[j] == port.gids[j]);
                if port.gids[j].virt == g.virt {
                    lemma_virt_index_found(port.gids, g.virt, j);
                }
            }
            lemma_first_index_is(port1.gids, |e: Virt<GidEntry>| e.virt == g.virt, n);
            assert(port1.gids.update(n, g) =~= port1.gids);
            assert(net1[di].ports.update(pi, port1) =~= net1[di].ports);
            assert(net1.update(di, net1[di]) =~= net1);
        },
    }
}

/// Where a translation has the virtual side `v`, a first one is found.
proof fn lemma_virt_index_found(gids: Seq<Virt<GidEntry>>, v: GidEntry, j: int)
    requires
        0 <= j < gids.len(),
        gids[j].virt == v,
    ensures
        gid_virt_index(gids, v) is Some,
{
    assert((|e: Virt<GidEntry>| e.virt == v)(gids[j]));
}

/// The translation at position `k` of port `p` of device `d` exists and has the
/// virtual GID `g`.
pub open spec fn virt_gid_at(net: Seq<DeviceModel>, d: int, p: int, k: int, g: Gid) -> bool {
    &&& 0 <= d < net.len()
    &&& 0 <= p < net[d].ports.len()
    &&& 0 <= k < net[d].ports[p].gids.len()
    &&& net[d].ports[p].gids[k].virt.gid == g
}

/// At most one translation of the network has the virtual GID `g`.
pub open spec fn virt_gid_single(net: Seq<DeviceModel>, g: Gid) -> bool {
    forall|d1: int, p1: int, k1: int, d2: int, p2: int, k2: int|
        #![trigger virt_gid_at(net, d1, p1, k1, g), virt_gid_at(net, d2, p2, k2, g)]
        virt_gid_at(net, d1, p1, k1, g) && virt_gid_at(net, d2, p2, k2, g) ==> d1 == d2 && p1
            == p2 && k1 == k2
}

/// Where the ports have a translation for `g`, it is found at some position.
proof fn lemma_ports_gid_find_some(ports: Seq<PortModel>, g: Gid) -> (pk: (int, int))
    requires
        ports_gid_find(ports, g) is Some,
    ensures
        0 <= pk.0 < ports.len(),
        0 <= pk.1 < ports[pk.0].gids.len(),
        ports[pk.0].gids[pk.1] == ports_gid_find(ports, g)->0,
        ports[pk.0].gids[pk.1].virt.gid == g,
    decreases ports.len(),
{
    if ports_gid_find(ports.drop_last(), g) is Some {
        lemma_ports_gid_find_some(ports.drop_last(), g)
    } else {
        let last = ports.len() - 1;
        lemma_first_index_some(ports.last().gids, |e: Virt<GidEntry>| e.virt.gid == g);
        (last, gid_addr_index(ports.last().gids, g)->0)
    }
}

/// Where some port has a translation with the virtual GID `g`, one is found.
proof fn lemma_ports_gid_find_found(ports: Seq<PortModel>, g: Gid, p: int, k: int)
    requires
        0 <= p < ports.len(),
        0 <= k < ports[p].gids.len(),
        ports[p].gids[k].virt.gid == g,
    ensures
        ports_gid_find(ports, g) is Some,
    decreases ports.len(),
{
    if p < ports.len() - 1 {
        assert(ports.drop_last()[p] == ports[p]);
        lemma_ports_gid_find_found(ports.drop_last(), g, p, k);
    } else {
        assert((|e: Virt<GidEntry>| e.virt.gid == g)(ports.last().gids[k]));
    }
}

/// Where exactly one translation of the network has the virtual GID `g`,
/// looking `g` up finds its device and that translation.
proof fn lemma_resolve_gid_single(net: Seq<DeviceModel>, g: Gid, d: int, p: int, k: int)
    requires
        virt_gid_at(net, d, p, k, g),
        virt_gid_single(net, g),
    ensures
        resolve_gid_model(net, Some(g)) == Ok::<Option<(int, Virt<GidEntry>)>, CoordinatorRestError>(
            Some((d, net[d].ports[p].gids[k])),
        ),
{
    reveal(resolve_gid_model);
    lemma_ports_gid_find_found(net[d].ports, g, p, k);
    assert forall|j: int| 0 <= j < d implies !(ports_gid_find((#[trigger] net[j]).ports, g) is Some) by {
        if ports_gid_find(net[j].ports, g) is Some {
            let pk = lemma_ports_gid_find_some(net[j].ports, g);
            assert(virt_gid_at(net, j, pk.0, pk.1, g));
            assert(virt_gid_at(net, d, p, k, g));
        }
    }
    lemma_first_index_is(net, |m: DeviceModel| ports_gid_find(m.ports, g) is Some, d);
    let pk = lemma_ports_gid_find_some(net[d].ports, g);
    assert(virt_gid_at(net, d, pk.0, pk.1, g));
}

/// A query for a virtual GID alone.
pub open spec fn gid_query(g: Gid) -> ResolveQpQuery {
    ResolveQpQuery { gid: Some(g), lid: None, qpn: None }
}

/// The answer to a query for a virtual GID alone.
pub open spec fn gid_answer(g: Gid) -> ResolveQpResp {
    ResolveQpResp { gid: Some(g), lid: None, qpn: None }
}

/// Where exactly one translation has the virtual GID `g`, resolving `g` answers
/// the real GID of that translation.
proof fn lemma_resolve_qp_gid(net: Seq<DeviceModel>, g: Gid, d: int, p: int, k: int)
    requires
        virt_gid_at(net, d, p, k, g),
        virt_gid_single(net, g),
    ensures
        resolve_qp_model(net, gid_query(g)) == Ok::<ResolveQpResp, CoordinatorRestError>(
            gid_answer(net[d].ports[p].gids[k].real.gid),
        ),
{
    lemma_resolve_gid_single(net, g, d, p, k);
    reveal(resolve_lid_model);
}

/// Storing a GID translation and then resolving its virtual GID answers its real
/// GID, where the store succeeded and at most one translation of the network had
/// that virtual GID before.
pub proof fn law_gid_put_then_resolve(
    net: Seq<DeviceModel>,
    network: u128,
    device: u128,
    port_id: u16,
    q: SetGidQuery,
)
    requires
        device_index(net, device) is Some ==> port_id >= 1,
        virt_gid_single(net, q.virt),
        gid_put_model(net, network, device, port_id, q).1 is Ok,
    ensures
        resolve_qp_model(gid_put_model(net, network, device, port_id, q).0, gid_query(q.virt))
            == Ok::<ResolveQpResp, CoordinatorRestError>(gid_answer(q.real)),
{
    let g = set_gid_pair(q);
    let net1 = gid_put_model(net, network, device, port_id, q).0;
    let di = device_index(net, device)->0;
    let pi = port_id - 1;
    lemma_first_index_some(net, |m: DeviceModel| m.device == device);
    let port = net[di].ports[pi];
    match gid_virt_index(port.gids, g.virt) {
        Some(k) => {
            lemma_first_index_some(port.gids, |e: Virt<GidEntry>| e.virt == g.virt);
            let p1 = PortModel { gids: port.gids.update(k, g), ..port };
            assert(net1 == update_port(net, di, pi, p1));
            assert(virt_gid_at(net1, di, pi, k, q.virt));
            assert forall|d1: int, p2: int, k1: int| #[trigger]
                virt_gid_at(net1, d1, p2, k1, q.virt) implies virt_gid_at(net, d1, p2, k1, q.virt) by {
                if d1 == di && p2 == pi && k1 == k {
                } else if d1 == di && p2 == pi {
                    assert(net1[d1].ports[p2].gids[k1] == net[d1].ports[p2].gids[k1]);
                } else if d1 == di {
                    assert(net1[d1].ports[p2] == net[d1].ports[p2]);
                } else {
                    assert(net1[d1] == net[d1]);
                }
            }
            lemma_resolve_qp_gid(net1, q.virt, di, pi, k);
        },
        None => {
            let n = port.gids.len() as int;
            let p1 = PortModel { gids: port.gids.push(g), ..port };
            assert(net1 == update_port(net, di, pi, p1));
            assert(virt_gid_at(net1, di, pi, n, q.virt));
            assert forall|d1: int, p2: int, k1: int| #[trigger]
                virt_gid_at(net1, d1, p2, k1, q.virt) implies d1 == di && p2 == pi && k1 == n by {
                if d1 == di && p2 == pi && k1 == n {
                } else {
                    if d1 == di && p2 == pi {
                        assert(net1[d1].ports[p2].gids[k1] == net[d1].ports[p2].gids[k1]);
                    } else if d1 == di {
                        assert(net1[d1].ports[p2] == net[d1].ports[p2]);
                    } else {
                        assert(net1[d1] == net[d1]);
                    }
                    assert(virt_gid_at(net, d1, p2, k1, q.virt));
                    assert(crate::coordinator::state::device_gid_unique(net[d1], g));
                    assert(crate::coordinator::state::gid_unique_in(net[d1].ports[p2].gids, g));
                }
            }
            lemma_resolve_qp_gid(net1, q.virt, di, pi, n);
        },
    }
}

/// Leasing a virtual GID and then resolving it answers the real GID of the
/// lease, where the lease succeeded and no translation of the network had the
/// new virtual GID before.
pub proof fn law_gid_lease_then_resolve(
    net: Seq<DeviceModel>,
    network: u128,
    device: u128,
    port_id: u16,
    q: LeaseGidQuery,
    iface: u64,
)
    requires
        device_index(net, device) is Some ==> port_id >= 1,
        forall|d: int, p: int, k: int|
            !#[trigger] virt_gid_at(
                net,
                d,
                p,
                k,
                Gid { subnet_prefix: DEFULT_GID_PREFIX, interface_id: iface },
            ),
        gid_post_model(net, network, device, port_id, q, iface).1 is Ok,
    ensures
        ({
            let (net1, r) = gid_post_model(net, network, device, port_id, q, iface);
            resolve_qp_model(net1, gid_query(r->Ok_0.gid)) == Ok::<
                ResolveQpResp,
                CoordinatorRestError,
            >(gid_answer(q.gid))
        }),
{
    let vg = Gid { subnet_prefix: DEFULT_GID_PREFIX, interface_id: iface };
    let net1 = gid_post_model(net, network, device, port_id, q, iface).0;
    let di = device_index(net, device)->0;
    let pi = port_id - 1;
    lemma_first_index_some(net, |m: DeviceModel| m.device == device);
    let port = net[di].ports[pi];
    let g = lease_gid_pair(port.gids, q, iface);
    let n = port.gids.len() as int;
    let p1 = PortModel { gids: port.gids.push(g), ..port };
    assert(net1 == update_port(net, di, pi, p1));
    assert(virt_gid_at(net1, di, pi, n, vg));
    assert forall|d1: int, p2: int, k1: int| #[trigger]
        virt_gid_at(net1, d1, p2, k1, vg) implies d1 == di && p2 == pi && k1 == n by {
        if d1 == di && p2 == pi && k1 == n {
        } else {
            if d1 == di && p2 == pi {
                assert(net1[d1].ports[p2].gids[k1] == net[d1].ports[p2].gids[k1]);
            } else if d1 == di {
                assert(net1[d1].ports[p2] == net[d1].ports[p2]);
            } else {
                assert(net1[d1] == net[d1]);
            }
            assert(virt_gid_at(net, d1, p2, k1, vg));
        }
    }
    lemma_resolve_qp_gid(net1, vg, di, pi, n);
}
/// Asking for the virtual LID of a port of a well formed network answers a LID
/// that is not 0 and fits in 16 bits, whatever was drawn; and a port whose LID
/// was set for another real LID gets a virtual LID different from the one it had.
pub proof fn law_port_lid_fresh(
    net: Seq<DeviceModel>,
    network: u128,
    device: u128,
    port_id: u16,
    q: SetPortAttrQuery,
    cand: u16,
)
    requires
        network_wf(net),
        device_index(net, device) is Some ==> port_id >= 1,
    ensures
        ({
            let (net1, r) = port_attr_model(net, network, device, port_id, q, cand);
            &&& network_wf(net1)
            &&& (r matches Ok(resp) ==> 0 < resp.lid < 0x10000)
            &&& (device_index(net, device) matches Some(di) ==> (port_id - 1 < net[di].ports.len()
                ==> (net[di].ports[port_id - 1].lid matches Some(l) ==> (l.real != q.lid
                ==> r->Ok_0.lid != l.virt))))
        }),
{
    let (net1, r) = port_attr_model(net, network, device, port_id, q, cand);
    match device_index(net, device) {
        None => {},
        Some(di) => {
            lemma_first_index_some(net, |m: DeviceModel| m.device == device);
            if port_id - 1 < net[di].ports.len() {
                let pi = port_id - 1;
                let port = net[di].ports[pi];
                assert(device_wf(net[di]));
                assert(lid_valid(port.lid));
                lemma_pick_lid_usable(cand, port.lid);
                match port.lid {
                    Some(l) if l.real == q.lid => {},
                    _ => {
                        let p1 = PortModel { lid: Some(Virt { real: q.lid, virt: pick_lid(cand, port.lid) as u32 }), ..port };
                        lemma_update_port_wf(net, di, pi, p1);
                    },
                }
            }
        },
    }
}

/// The port `p` of device `d` has a LID whose virtual side is `v`.
pub open spec fn virt_lid_at(net: Seq<DeviceModel>, d: int, p: int, v: u32) -> bool {
    &&& 0 <= d < net.len()
    &&& 0 <= p < net[d].ports.len()
    &&& net[d].ports[p].lid is Some
    &&& net[d].ports[p].lid->0.virt == v
}

/// At most one port of the network has a LID whose virtual side is `v`.
pub open spec fn virt_lid_single(net: Seq<DeviceModel>, v: u32) -> bool {
    forall|d1: int, p1: int, d2: int, p2: int|
        #![trigger virt_lid_at(net, d1, p1, v), virt_lid_at(net, d2, p2, v)]
        virt_lid_at(net, d1, p1, v) && virt_lid_at(net, d2, p2, v) ==> d1 == d2 && p1 == p2
}

/// Asking for the virtual LID of a port and then resolving that virtual LID
/// answers the real LID asked with, where no other port of the network has the
/// same virtual LID.
#[verifier::rlimit(40)]
pub proof fn law_port_attr_then_resolve(
    net: Seq<DeviceModel>,
    network: u128,
    device: u128,
    port_id: u16,
    q: SetPortAttrQuery,
    cand: u16,
)
    requires
        device_index(net, device) is Some ==> port_id >= 1,
        port_attr_model(net, network, device, port_id, q, cand).1 is Ok,
        ({
            let (net1, r) = port_attr_model(net, network, device, port_id, q, cand);
            virt_lid_single(net1, r->Ok_0.lid)
        }),
    ensures
        ({
            let (net1, r) = port_attr_model(net, network, device, port_id, q, cand);
            resolve_qp_model(net1, ResolveQpQuery { gid: None, lid: Some(r->Ok_0.lid), qpn: None })
                == Ok::<ResolveQpResp, CoordinatorRestError>(
                ResolveQpResp { gid: None, lid: Some(q.lid), qpn: None },
            )
        }),
{
    reveal(resolve_gid_model);
    reveal(resolve_lid_model);
    let (net1, r) = port_attr_model(net, network, device, port_id, q, cand);
    let v = r->Ok_0.lid;
    let di = device_index(net, device)->0;
    let pi = port_id - 1;
    lemma_first_index_some(net, |m: DeviceModel| m.device == device);
    let port = net[di].ports[pi];
    match port.lid {
        Some(l) if l.real == q.lid => {
            assert(net1 == net);
        },
        _ => {
            let p1 = PortModel { lid: Some(Virt { real: q.lid, virt: pick_lid(cand, port.lid) as u32 }), ..port };
            assert(net1 == update_port(net, di, pi, p1));
            assert(net1[di].ports[pi] == p1);
        },
    }
    assert(virt_lid_at(net1, di, pi, v));
    assert(net1[di].ports[pi].lid->0.real == q.lid);
    assert((|pm: PortModel| pm.lid is Some && pm.lid->0.virt == v)(net1[di].ports[pi]));
    assert forall|j: int| 0 <= j < di implies !(port_lid_index((#[trigger] net1[j]).ports, v) is Some) by {
        if port_lid_index(net1[j].ports, v) is Some {
            lemma_first_index_some(net1[j].ports, |pm: PortModel| pm.lid is Some && pm.lid->0.virt == v);
            assert(virt_lid_at(net1, j, port_lid_index(net1[j].ports, v)->0, v));
            assert(virt_lid_at(net1, di, pi, v));
        }
    }
    lemma_first_index_is(net1, |m: DeviceModel| port_lid_index(m.ports, v) is Some, di);
    lemma_first_index_some(net1[di].ports, |pm: PortModel| pm.lid is Some && pm.lid->0.virt == v);
    assert(virt_lid_at(net1, di, port_lid_index(net1[di].ports, v)->0, v));
}

/// Registering a QP and then looking up its virtual number in its device
/// answers the real number registered, where no QP of the device had that
/// virtual number before.
pub proof fn law_create_qp_then_resolve(
    net: Seq<DeviceModel>,
    network: u128,
    device: u128,
    q: crate::types::CreateQpQuery,
    cand: u32,
)
    requires
        device_index(net, device) is Some,
        qp_index(net[device_index(net, device)->0].qps, qp_virt_number(cand)) is None,
    ensures
        ({
            let (net1, r) = create_qp_model(net, network, device, q, cand);
            let di = device_index(net, device)->0;
            &&& r == Ok::<crate::types::CreateQpResp, CoordinatorRestError>(
                crate::types::CreateQpResp { qpn: qp_virt_number(cand) },
            )
            &&& resolve_qpn_model(net1[di], Some(qp_virt_number(cand))) == Ok::<
                Option<Virt<u32>>,
                CoordinatorRestError,
            >(Some(Virt { real: q.qpn, virt: qp_virt_number(cand) }))
        }),
{
    let v = qp_virt_number(cand);
    let di = device_index(net, device)->0;
    lemma_first_index_some(net, |m: DeviceModel| m.device == device);
    let net1 = create_qp_model(net, network, device, q, cand).0;
    let qps = net[di].qps;
    let qps1 = qps.push(Virt { real: q.qpn, virt: v });
    assert(net1[di].qps == qps1);
    assert forall|j: int| 0 <= j < qps.len() implies !((#[trigger] qps1[j]).virt == v) by {
        assert(qps1[j] == qps[j]);
        if qps[j].virt == v {
            assert((|x: Virt<u32>| x.virt == v)(qps[j]));
        }
    }
    lemma_first_index_is(qps1, |x: Virt<u32>| x.virt == v, qps.len() as int);
}

/// A refused request changes nothing: where leasing a GID, storing a GID
/// translation, registering a port, asking for a port's LID or registering a
/// QP is answered with an error, the devices of the network are as before.
pub proof fn law_refused_requests_change_nothing(
    net: Seq<DeviceModel>,
    network: u128,
    device: u128,
    port_id: u16,
    lease: LeaseGidQuery,
    iface: u64,
    put: SetGidQuery,
    port: crate::types::CreatePortQuery,
    attr: SetPortAttrQuery,
    lid: u16,
    qp: crate::types::CreateQpQuery,
    qpn: u32,
)
    ensures
        gid_post_model(net, network, device, port_id, lease, iface).1 is Err ==> gid_post_model(
            net,
            network,
            device,
            port_id,
            lease,
            iface,
        ).0 == net,
        gid_put_model(net, network, device, port_id, put).1 is Err ==> gid_put_model(
            net,
            network,
            device,
            port_id,
            put,
        ).0 == net,
        port_post_model(net, network, device, port).1 is Err ==> port_post_model(
            net,
            network,
            device,
            port,
        ).0 == net,
        port_attr_model(net, network, device, port_id, attr, lid).1 is Err ==> port_attr_model(
            net,
            network,
            device,
            port_id,
            attr,
            lid,
        ).0 == net,
        create_qp_model(net, network, device, qp, qpn).1 is Err ==> create_qp_model(
            net,
            network,
            device,
            qp,
            qpn,
        ).0 == net,
{
}

/// A request in a network the coordinator does not know is refused with
/// "network not found" and changes nothing.
pub proof fn law_unknown_network_refused<R>(
    s: Map<u128, Seq<DeviceModel>>,
    network: u128,
    step: (Seq<DeviceModel>, Result<R, CoordinatorRestError>),
)
    requires
        !s.contains_key(network),
    ensures
        in_network(s, network, step) == (s, Err::<R, CoordinatorRestError>(
            CoordinatorRestError::NetworkUuidNotFound(network),
        )),
{
}

/// A reserved GID (interface id 0) or a loopback GID (interface id 1) is never
/// leased: in a known network the lease is refused with `GidReserved` and
/// nothing changes, whatever interface id was drawn.
pub proof fn law_reserved_gids_refused(
    s: Map<u128, Seq<DeviceModel>>,
    network: u128,
    device: u128,
    port_id: u16,
    q: LeaseGidQuery,
    iface: u64,
)
    requires
        s.contains_key(network),
        q.gid.interface_id == 0 || q.gid.interface_id == 1,
    ensures
        in_network(s, network, gid_post_model(s[network], network, device, port_id, q, iface)) == (
            s,
            Err::<LeaseGidResp, CoordinatorRestError>(CoordinatorRestError::GidReserved),
        ),
{
    assert(s.insert(network, s[network]) =~= s);
}

/// Storing a translation for a virtual GID that a port of a well formed network
/// already holds: asked with that entry's virtual index, the entry's real side is
/// replaced and nothing is added; asked with another virtual index, the store is
/// refused with `GidConflict` (409) and nothing changes.
pub proof fn law_gid_put_known_virt(
    net: Seq<DeviceModel>,
    network: u128,
    device: u128,
    port_id: u16,
    j: int,
    q: SetGidQuery,
)
    requires
        network_wf(net),
        device_index(net, device) is Some,
        1 <= port_id,
        port_id - 1 < net[device_index(net, device)->0].ports.len(),
        0 <= j < net[device_index(net, device)->0].ports[port_id - 1].gids.len(),
        net[device_index(net, device)->0].ports[port_id - 1].gids[j].virt.gid == q.virt,
    ensures
        ({
            let di = device_index(net, device)->0;
            let pi = port_id - 1;
            let port = net[di].ports[pi];
            let (net1, r) = gid_put_model(net, network, device, port_id, q);
            if q.virt_idx == port.gids[j].virt.idx {
                &&& r == Ok::<SetGidResp, CoordinatorRestError>(set_gid_resp(q))
                &&& net1 == update_port(
                    net,
                    di,
                    pi,
                    PortModel { gids: port.gids.update(j, set_gid_pair(q)), ..port },
                )
            } else {
                &&& r == Err::<SetGidResp, CoordinatorRestError>(CoordinatorRestError::GidConflict)
                &&& net1 == net
            }
        }),
{
    let di = device_index(net, device)->0;
    let pi = port_id - 1;
    let port = net[di].ports[pi];
    let g = set_gid_pair(q);
    lemma_first_index_some(net, |m: DeviceModel| m.device == device);
    assert(device_wf(net[di]));
    assert(virt_gids_unique(port.gids));
    if q.virt_idx == port.gids[j].virt.idx {
        assert(port.gids[j].virt == g.virt);
        assert(exists|k: int| 0 <= k < port.gids.len() && (|e: Virt<GidEntry>| e.virt == g.virt)(port.gids[k]));
        lemma_first_index_some(port.gids, |e: Virt<GidEntry>| e.virt == g.virt);
        let k = gid_virt_index(port.gids, g.virt)->0;
        assert(port.gids[k].virt.gid == port.gids[j].virt.gid);
        assert(k == j);
    } else {
        assert forall|k: int| 0 <= k < port.gids.len() implies !((|e: Virt<GidEntry>| e.virt == g.virt)(
            #[trigger] port.gids[k],
        )) by {
            if port.gids[k].virt == g.virt {
                assert(port.gids[k].virt.gid == port.gids[j].virt.gid);
                assert(k == j);
            }
        }
        lemma_first_index_none(port.gids, |e: Virt<GidEntry>| e.virt == g.virt);
        assert(!gid_unique_in(port.gids, g)) by {
            assert(port.gids[j].virt.gid == g.virt.gid);
        }
        assert(!device_gid_unique(net[di], g));
        assert(!network_gid_unique(net, g));
    }
}

/// Device `d` has a GID translation whose virtual GID is `g`.
pub open spec fn holds_virt_gid(d: DeviceModel, g: Gid) -> bool {
    exists|p: int, k: int|
        0 <= p < d.ports.len() && 0 <= k < d.ports[p].gids.len() && (#[trigger] d.ports[p].gids[k]).virt.gid
            == g
}

/// Device `d` has a GID pair whose virtual GID is `g` and whose real GID is `r`.
pub open spec fn pairs_gid(d: DeviceModel, g: Gid, r: Gid) -> bool {
    exists|p: int, k: int|
        0 <= p < d.ports.len() && 0 <= k < d.ports[p].gids.len() && (#[trigger] d.ports[p].gids[k]).virt.gid
            == g && d.ports[p].gids[k].real.gid == r
}

/// Device `d` has a port whose virtual LID is `l`.
pub open spec fn holds_virt_lid(d: DeviceModel, l: u32) -> bool {
    exists|p: int| 0 <= p < d.ports.len() && (#[trigger] d.ports[p]).lid is Some && d.ports[p].lid->0.virt == l
}

/// Device `d` has a port whose LID pair has the virtual LID `l` and the real LID `r`.
pub open spec fn pairs_lid(d: DeviceModel, l: u32, r: u32) -> bool {
    exists|p: int| 0 <= p < d.ports.len() && (#[trigger] d.ports[p]).lid == Some(Virt { real: r, virt: l })
}

/// Device `d` has registered the QP translation `v`.
pub open spec fn holds_qp(d: DeviceModel, v: Virt<u32>) -> bool {
    exists|k: int| 0 <= k < d.qps.len() && #[trigger] d.qps[k] == v
}

/// What the search of the ports for a virtual GID finds is a translation of one
/// of the ports with that virtual GID, and it finds one where there is one.
proof fn lemma_ports_gid_find_sound(ports: Seq<PortModel>, g: Gid)
    ensures
        ports_gid_find(ports, g) matches Some(e) ==> e.virt.gid == g && exists|p: int, k: int|
            0 <= p < ports.len() && 0 <= k < ports[p].gids.len() && #[trigger] ports[p].gids[k] == e,
        (exists|p: int, k: int|
            0 <= p < ports.len() && 0 <= k < ports[p].gids.len() && (#[trigger] ports[p].gids[k]).virt.gid
                == g) ==> ports_gid_find(ports, g) is Some,
    decreases ports.len(),
{
    if ports.len() > 0 {
        let init = ports.drop_last();
        lemma_ports_gid_find_sound(init, g);
        let last = ports.last();
        if ports_gid_find(init, g) is Some {
            let e = ports_gid_find(init, g)->0;
            let (p, k) = choose|p: int, k: int|
                0 <= p < init.len() && 0 <= k < init[p].gids.len() && #[trigger] init[p].gids[k] == e;
            assert(ports[p] == init[p]);
            assert(ports[p].gids[k] == e);
        } else {
            if gid_addr_index(last.gids, g) is Some {
                lemma_first_index_some(last.gids, |x: Virt<GidEntry>| x.virt.gid == g);
                let k = gid_addr_index(last.gids, g)->0;
                assert(ports[ports.len() - 1].gids[k] == last.gids[k]);
            }
            if exists|p: int, k: int|
                0 <= p < ports.len() && 0 <= k < ports[p].gids.len() && (#[trigger] ports[p].gids[k]).virt.gid
                    == g {
                let (p, k) = choose|p: int, k: int|
                    0 <= p < ports.len() && 0 <= k < ports[p].gids.len() && (#[trigger] ports[p].gids[k]).virt.gid
                        == g;
                if p < init.len() {
                    assert(init[p].gids[k] == ports[p].gids[k]);
                } else {
                    assert((|x: Virt<GidEntry>| x.virt.gid == g)(last.gids[k]));
                    if gid_addr_index(last.gids, g) is None {
                        assert(exists|j: int| 0 <= j < last.gids.len() && (|x: Virt<GidEntry>| x.virt.gid == g)(last.gids[j]));
                    }
                }
            }
        }
    }
}

/// Resolving answers only what the network holds, and an answer for each address
/// asked for and only for those. A real GID answered is the
/// real side of a translation of the queried virtual GID; a real LID answered
/// is the real side of a port's LID with the queried virtual LID; a real QP
/// number answered is the real side of a QP registered with the queried virtual
/// number, on a device that holds the queried virtual GID and has the same UUID
/// as a device with the queried virtual LID. Where both a GID and a LID are
/// asked for and resolving succeeds, they lie on devices with the same UUID.
pub proof fn law_resolve_answers_what_the_network_holds(net: Seq<DeviceModel>, q: ResolveQpQuery)
    ensures
        resolve_qp_model(net, q) matches Ok(resp) ==> {
            &&& resp.gid is Some == q.gid is Some
            &&& resp.lid is Some == q.lid is Some
            &&& resp.qpn is Some == q.qpn is Some
            &&& (resp.gid matches Some(rg) ==> q.gid is Some && exists|d: int|
                0 <= d < net.len() && pairs_gid(#[trigger] net[d], q.gid->0, rg))
            &&& (resp.lid matches Some(rl) ==> q.lid is Some && exists|d: int|
                0 <= d < net.len() && pairs_lid(#[trigger] net[d], q.lid->0, rl))
            &&& (resp.qpn matches Some(rq) ==> q.qpn is Some && exists|d: int|
                0 <= d < net.len() && holds_qp(#[trigger] net[d], Virt { real: rq, virt: q.qpn->0 }) && (
                q.gid matches Some(g) ==> holds_virt_gid(net[d], g)) && (q.lid matches Some(l)
                ==> exists|d2: int|
                0 <= d2 < net.len() && holds_virt_lid(#[trigger] net[d2], l) && net[d2].device
                    == net[d].device))
            &&& (q.gid matches Some(g) ==> q.lid matches Some(l) ==> exists|d1: int, d2: int|
                0 <= d1 < net.len() && 0 <= d2 < net.len() && holds_virt_gid(#[trigger] net[d1], g)
                    && holds_virt_lid(#[trigger] net[d2], l) && net[d1].device == net[d2].device)
        },
{
    reveal(resolve_gid_model);
    reveal(resolve_lid_model);
    if resolve_qp_model(net, q) is Ok {
        let resp = resolve_qp_model(net, q)->Ok_0;
        let gs = resolve_gid_model(net, q.gid)->Ok_0;
        let ls = resolve_lid_model(net, q.lid)->Ok_0;
        if q.gid is Some {
            let g = q.gid->0;
            lemma_first_index_some(net, |d: DeviceModel| ports_gid_find(d.ports, g) is Some);
            let a = gid_device_index(net, g)->0;
            lemma_ports_gid_find_sound(net[a].ports, g);
            let e = ports_gid_find(net[a].ports, g)->0;
            let (p, k) = choose|p: int, k: int|
                0 <= p < net[a].ports.len() && 0 <= k < net[a].ports[p].gids.len()
                    && #[trigger] net[a].ports[p].gids[k] == e;
            assert(net[a].ports[p].gids[k] == e);
            assert(pairs_gid(net[a], g, e.real.gid));
            assert(holds_virt_gid(net[a], g));
        }
        if q.lid is Some {
            let l = q.lid->0;
            lemma_first_index_some(net, |d: DeviceModel| port_lid_index(d.ports, l) is Some);
            let b = lid_device_index(net, l)->0;
            lemma_first_index_some(net[b].ports, |pm: PortModel| pm.lid is Some && pm.lid->0.virt == l);
            let p = port_lid_index(net[b].ports, l)->0;
            assert(net[b].ports[p].lid == Some(Virt { real: net[b].ports[p].lid->0.real, virt: l }));
            assert(pairs_lid(net[b], l, net[b].ports[p].lid->0.real));
            assert(holds_virt_lid(net[b], l));
        }
        if resp.qpn is Some {
            let n = q.qpn->0;
            let d = match (gs, ls) {
                (Some((a, _)), _) => a,
                (None, Some((b, _))) => b,
                (None, None) => 0,
            };
            lemma_first_index_some(net[d].qps, |v: Virt<u32>| v.virt == n);
            let k = qp_index(net[d].qps, n)->0;
            assert(net[d].qps[k] == Virt { real: resp.qpn->0, virt: n });
            assert(holds_qp(net[d], Virt { real: resp.qpn->0, virt: n }));
        }
    }
}

/// Where a query asks for a virtual GID and a virtual LID that both are in the
/// network, but every device with that GID has another UUID than every device
/// with that LID, resolving refuses with `DeviceConflict`.
#[verifier::rlimit(80)]
pub proof fn law_resolve_device_conflict(net: Seq<DeviceModel>, q: ResolveQpQuery)
    requires
        q.gid is Some,
        q.lid is Some,
        exists|d: int| 0 <= d < net.len() && holds_virt_gid(#[trigger] net[d], q.gid->0),
        exists|d: int| 0 <= d < net.len() && holds_virt_lid(#[trigger] net[d], q.lid->0),
        forall|d1: int, d2: int|
            0 <= d1 < net.len() && 0 <= d2 < net.len() && holds_virt_gid(#[trigger] net[d1], q.gid->0)
                && holds_virt_lid(#[trigger] net[d2], q.lid->0) ==> net[d1].device != net[d2].device,
    ensures
        resolve_qp_model(net, q) == Err::<ResolveQpResp, CoordinatorRestError>(
            CoordinatorRestError::DeviceConflict,
        ),
{
    reveal(resolve_gid_model);
    reveal(resolve_lid_model);
    let g = q.gid->0;
    let l = q.lid->0;
    let d1 = choose|d: int| 0 <= d < net.len() && holds_virt_gid(#[trigger] net[d], g);
    let (p1, k1) = choose|p: int, k: int|
        0 <= p < net[d1].ports.len() && 0 <= k < net[d1].ports[p].gids.len()
            && (#[trigger] net[d1].ports[p].gids[k]).virt.gid == g;
    lemma_ports_gid_find_sound(net[d1].ports, g);
    assert(net[d1].ports[p1].gids[k1].virt.gid == g);
    assert((|d: DeviceModel| ports_gid_find(d.ports, g) is Some)(net[d1]));
    lemma_first_index_some(net, |d: DeviceModel| ports_gid_find(d.ports, g) is Some);
    let a = gid_device_index(net, g)->0;
    lemma_ports_gid_find_sound(net[a].ports, g);
    let e = ports_gid_find(net[a].ports, g)->0;
    let (pa, ka) = choose|p: int, k: int|
        0 <= p < net[a].ports.len() && 0 <= k < net[a].ports[p].gids.len()
            && #[trigger] net[a].ports[p].gids[k] == e;
    assert(net[a].ports[pa].gids[ka] == e);
    assert(holds_virt_gid(net[a], g));
    let d2 = choose|d: int| 0 <= d < net.len() && holds_virt_lid(#[trigger] net[d], l);
    let p2 = choose|p: int|
        0 <= p < net[d2].ports.len() && (#[trigger] net[d2].ports[p]).lid is Some && net[d2].ports[p].lid->0.virt == l;
    assert((|pm: PortModel| pm.lid is Some && pm.lid->0.virt == l)(net[d2].ports[p2]));
    if port_lid_index(net[d2].ports, l) is None {
        assert(exists|j: int| 0 <= j < net[d2].ports.len() && (|pm: PortModel| pm.lid is Some && pm.lid->0.virt == l)(net[d2].ports[j]));
    }
    assert((|d: DeviceModel| port_lid_index(d.ports, l) is Some)(net[d2]));
    lemma_first_index_some(net, |d: DeviceModel| port_lid_index(d.ports, l) is Some);
    let b = lid_device_index(net, l)->0;
    lemma_first_index_some(net[b].ports, |pm: PortModel| pm.lid is Some && pm.lid->0.virt == l);
    let pb = port_lid_index(net[b].ports, l)->0;
    assert(holds_virt_lid(net[b], l));
    assert(net[a].device != net[b].device);
}

/// Registering a port answers the attributes of the query that the coordinator
/// passes on unchanged (the pkey table length, the core capability flags and the
/// maximum MAD size) and the virtual port id it gave the port; the new port is
/// the device's last one and keeps the query's attributes.
pub proof fn law_port_post_answers_the_query(
    net: Seq<DeviceModel>,
    network: u128,
    device: u128,
    q: crate::types::CreatePortQuery,
)
    ensures
        ({
            let (net1, r) = port_post_model(net, network, device, q);
            r matches Ok(resp) ==> {
                &&& resp.pkey_tbl_len == q.pkey_tbl_len
                &&& resp.core_cap_flags == q.core_cap_flags
                &&& resp.max_mad_size == q.max_mad_size
                &&& device_index(net, device) is Some
                &&& ({
                    let di = device_index(net, device)->0;
                    let p = net1[di].ports.last();
                    &&& net1[di].ports.len() == net[di].ports.len() + 1
                    &&& p.id == Virt { real: q.port, virt: resp.port }
                    &&& p.core_cap_flags == resp.core_cap_flags
                    &&& p.pkey_tbl_len == resp.pkey_tbl_len
                    &&& p.max_mad_size == resp.max_mad_size
                    &&& p.gid_tbl_len == q.gid_tbl_len
                    &&& p.lid is None
                    &&& p.gids.len() == 0
                })
            }
        }),
{
    if device_index(net, device) is Some {
        lemma_first_index_some(net, |m: DeviceModel| m.device == device);
    }
}

} // verus!
