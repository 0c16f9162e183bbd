//! Resolving virtual addresses (GID, LID, QP number) back to the real ones.

use vstd::prelude::*;
use crate::types::{Gid, ResolveQpQuery, ResolveQpResp};
use crate::coordinator::errors::CoordinatorRestError;
use crate::coordinator::state::{
    Virt, GidEntry, PortEntry, PortModel, DeviceModel, DeviceEntry, QpEntry, NetworkState, CoordState,
    DeviceTable,
    first_index, lemma_first_index_is, lemma_first_index_none, lemma_first_index_some,
};

verus! {

/// The position of the first translation whose virtual GID is `g`.
pub open spec fn gid_addr_index(gids: Seq<Virt<GidEntry>>, g: Gid) -> Option<int> {
    first_index(gids, |e: Virt<GidEntry>| e.virt.gid == g)
}

/// The first translation whose virtual GID is `g`, going through the ports in
/// order and through the translations of each port in order.
pub open spec fn ports_gid_find(ports: Seq<PortModel>, g: Gid) -> Option<Virt<GidEntry>>
    decreases ports.len(),
{
    if ports.len() == 0 {
        None
    } else {
        match ports_gid_find(ports.drop_last(), g) {
            Some(e) => Some(e),
            None => match gid_addr_index(ports.last().gids, g) {
                Some(k) => Some(ports.last().gids[k]),
                None => None,
            },
        }
    }
}

/// The position of the first device that has a translation for the virtual GID `g`.
pub open spec fn gid_device_index(net: Seq<DeviceModel>, g: Gid) -> Option<int> {
    first_index(net, |d: DeviceModel| ports_gid_find(d.ports, g) is Some)
}

/// The position of the first port whose virtual LID is `l`.
pub open spec fn port_lid_index(ports: Seq<PortModel>, l: u32) -> Option<int> {
    first_index(ports, |p: PortModel| p.lid is Some && p.lid->0.virt == l)
}

/// The position of the first device that has a port with the virtual LID `l`.
pub open spec fn lid_device_index(net: Seq<DeviceModel>, l: u32) -> Option<int> {
    first_index(net, |d: DeviceModel| port_lid_index(d.ports, l) is Some)
}

/// The position of the first QP whose virtual number is `n`.
pub open spec fn qp_index(qps: Seq<Virt<u32>>, n: u32) -> Option<int> {
    first_index(qps, |v: Virt<u32>| v.virt == n)
}

/// Looking up a virtual GID, if one is asked for: the position of the device
/// that has it and its translation.
#[verifier::opaque]
pub open spec fn resolve_gid_model(net: Seq<DeviceModel>, q: Option<Gid>) -> Result<
    Option<(int, Virt<GidEntry>)>,
    CoordinatorRestError,
> {
    match q {
        None => Ok(None),
        Some(g) => match gid_device_index(net, g) {
            None => Err(CoordinatorRestError::GidNotFound(g)),
            Some(di) => Ok(Some((di, ports_gid_find(net[di].ports, g)->0))),
        },
    }
}

/// Looking up a virtual LID, if one is asked for: the position of the device
/// that has it and the LID pair of its port.
#[verifier::opaque]
pub open spec fn resolve_lid_model(net: Seq<DeviceModel>, q: Option<u32>) -> Result<
    Option<(int, Virt<u32>)>,
    CoordinatorRestError,
> {
    match q {
        None => Ok(None),
        Some(l) => match lid_device_index(net, l) {
            None => Err(CoordinatorRestError::LidNotFound(l)),
            Some(di) => Ok(Some((di, net[di].ports[port_lid_index(net[di].ports, l)->0].lid->0))),
        },
    }
}

/// Looking up a virtual QP number of a device, if one is asked for.
pub open spec fn resolve_qpn_model(d: DeviceModel, q: Option<u32>) -> Result<
    Option<Virt<u32>>,
    CoordinatorRestError,
> {
    match q {
        None => Ok(None),
        Some(n) => match qp_index(d.qps, n) {
            None => Err(CoordinatorRestError::QpNotFound(n)),
            Some(k) => Ok(Some(d.qps[k])),
        },
    }
}

/// Resolving a query: the GID and the LID are looked up in the network, the QP
/// number in the device they lead to (which must be the same device where both
/// are given); a QP number alone cannot be resolved. The answer holds the real
/// side of each address found.
pub open spec fn resolve_qp_model(net: Seq<DeviceModel>, q: ResolveQpQuery) -> Result<
    ResolveQpResp,
    CoordinatorRestError,
> {
    match resolve_gid_model(net, q.gid) {
        Err(e) => Err(e),
        Ok(gs) => match resolve_lid_model(net, q.lid) {
            Err(e) => Err(e),
            Ok(ls) => {
                let qs = match (gs, ls) {
                    (Some((a, _)), None) => resolve_qpn_model(net[a], q.qpn),
                    (None, Some((b, _))) => resolve_qpn_model(net[b], q.qpn),
                    (Some((a, _)), Some((b, _))) => if net[a].device != net[b].device {
                        Err(CoordinatorRestError::DeviceConflict)
                    } else {
                        resolve_qpn_model(net[a], q.qpn)
                    },
                    (None, None) => match q.qpn {
                        Some(n) => Err(CoordinatorRestError::QpNotFound(n)),
                        None => Ok(None),
                    },
                };
                match qs {
                    Err(e) => Err(e),
                    Ok(qo) => Ok(
                        ResolveQpResp {
                            gid: match gs {
                                Some((_, e)) => Some(e.real.gid),
                                None => None,
                            },
                            lid: match ls {
                                Some((_, l)) => Some(l.real),
                                None => None,
                            },
                            qpn: match qo {
                                Some(v) => Some(v.real),
                                None => None,
                            },
                        },
                    ),
                }
            },
        },
    }
}

/// A position found in executable code, as a mathematical integer.
pub open spec fn index_view<T>(r: Result<Option<(usize, T)>, CoordinatorRestError>) -> Result<
    Option<(int, T)>,
    CoordinatorRestError,
> {
    match r {
        Err(e) => Err(e),
        Ok(None) => Ok(None),
        Ok(Some((i, t))) => Ok(Some((i as int, t))),
    }
}

/// Once a prefix of the ports has a translation for `g`, so have all ports, and
/// it is the same one.
proof fn lemma_ports_gid_find_prefix(s: Seq<PortModel>, n: int, g: Gid)
    requires
        0 <= n <= s.len(),
        ports_gid_find(s.subrange(0, n), g) is Some,
    ensures
        ports_gid_find(s, g) == ports_gid_find(s.subrange(0, n), g),
    decreases s.len(),
{
    if n == s.len() {
        assert(s.subrange(0, n) =~= s);
    } else {
        assert(s.drop_last().subrange(0, n) =~= s.subrange(0, n));
        lemma_ports_gid_find_prefix(s.drop_last(), n, g);
    }
}

/// The position of the first translation whose virtual GID is `g`.
fn gids_find_addr(gids: &[Virt<GidEntry>], g: Gid) -> (r: Option<usize>)
    ensures
        match r {
            Some(k) => gid_addr_index(gids@, g) == Some(k as int),
            None => gid_addr_index(gids@, g) is None,
        },
{
    let mut k: usize = 0;
    while k < gids.len()
        invariant
            k <= gids@.len(),
            forall|m: int| 0 <= m < k ==> (#[trigger] gids@[m]).virt.gid != g,
        decreases gids@.len() - k,
    {
        if gids[k].virt.gid == g {
            proof {
                lemma_first_index_is(gids@, |e: Virt<GidEntry>| e.virt.gid == g, k as int);
            }
            return Some(k);
        }
        k = k + 1;
    }
    proof {
        lemma_first_index_none(gids@, |e: Virt<GidEntry>| e.virt.gid == g);
    }
    None
}

/// The first translation of the ports whose virtual GID is `g`.
pub fn ports_find_gid(ports: &[PortEntry], g: Gid) -> (r: Option<Virt<GidEntry>>)
    ensures
        r == ports_gid_find(ports@.map_values(|p: PortEntry| p@), g),
{
    let ghost pm = ports@.map_values(|p: PortEntry| p@);
    let mut i: usize = 0;
    while i < ports.len()
        invariant
            i <= ports@.len(),
            pm == ports@.map_values(|p: PortEntry| p@),
            ports_gid_find(pm.subrange(0, i as int), g) is None,
        decreases ports@.len() - i,
    {
        let gids = ports[i].iter_gid();
        let ghost prefix = pm.subrange(0, i as int + 1);
        assert(prefix.drop_last() =~= pm.subrange(0, i as int));
        assert(prefix.last() == ports@[i as int]@);
        match gids_find_addr(gids, g) {
            Some(k) => {
                proof {
                    lemma_first_index_some(gids@, |e: Virt<GidEntry>| e.virt.gid == g);
                    assert(ports_gid_find(prefix, g) == Some(gids@[k as int]));
                    lemma_ports_gid_find_prefix(pm, i as int + 1, g);
                }
                return Some(gids[k]);
            },
            None => {},
        }
        i = i + 1;
    }
    assert(pm.subrange(0, pm.len() as int) =~= pm);
    None
}

/// The LID pair of the first port whose virtual LID is `l`.
pub fn ports_find_lid(ports: &[PortEntry], l: u32) -> (r: Option<Virt<u32>>)
    ensures
        ({
            let pm = ports@.map_values(|p: PortEntry| p@);
            match port_lid_index(pm, l) {
                Some(k) => r is Some && r == pm[k].lid,
                None => r is None,
            }
        }),
{
    let ghost pm = ports@.map_values(|p: PortEntry| p@);
    let mut i: usize = 0;
    while i < ports.len()
        invariant
            i <= ports@.len(),
            pm == ports@.map_values(|p: PortEntry| p@),
            forall|j: int| 0 <= j < i ==> !((#[trigger] pm[j]).lid is Some && pm[j].lid->0.virt == l),
        decreases ports@.len() - i,
    {
        assert(pm[i as int] == ports@[i as int]@);
        match ports[i].port_lid() {
            Some(v) => {
                if v.virt == l {
                    proof {
                        lemma_first_index_is(
                            pm,
                            |p: PortModel| p.lid is Some && p.lid->0.virt == l,
                            i as int,
                        );
                    }
                    return Some(v);
                }
            },
            None => {},
        }
        i = i + 1;
    }
    proof {
        lemma_first_index_none(pm, |p: PortModel| p.lid is Some && p.lid->0.virt == l);
    }
    None
}

/// Looks up the virtual QP number `query_qpn` of a device, if one is asked for.
pub fn resolve_qpn(device: &DeviceEntry, query_qpn: Option<u32>) -> (r: Result<
    Option<Virt<u32>>,
    CoordinatorRestError,
>)
    ensures
        r == resolve_qpn_model(device@, query_qpn),
{
    let n = match query_qpn {
        None => {
            return Ok(None);
        },
        Some(n) => n,
    };
    let qps = device.iter_qps();
    let ghost qm = qps@.map_values(|q: QpEntry| q.qpn);
    let mut i: usize = 0;
    while i < qps.len()
        invariant
            i <= qps@.len(),
            qm == qps@.map_values(|q: QpEntry| q.qpn),
            qm == device@.qps,
            query_qpn == Some(n),
            forall|j: int| 0 <= j < i ==> (#[trigger] qm[j]).virt != n,
        decreases qps@.len() - i,
    {
        assert(qm[i as int] == qps@[i as int].qpn);
        if qps[i].qpn.virt == n {
            proof {
                lemma_first_index_is(qm, |v: Virt<u32>| v.virt == n, i as int);
                assert(qp_index(device@.qps, n) == Some(i as int));
            }
            return Ok(Some(qps[i].qpn));
        }
        i = i + 1;
    }
    proof {
        lemma_first_index_none(qm, |v: Virt<u32>| v.virt == n);
    }
    Err(CoordinatorRestError::QpNotFound(n))
}

impl NetworkState {
    /// Looks up the virtual GID `query_gid`, if one is asked for: the position of
    /// the first device that has it and its first translation.
    pub fn resolve_gid(&self, query_gid: Option<Gid>) -> (r: Result<
        Option<(usize, Virt<GidEntry>)>,
        CoordinatorRestError,
    >)
        ensures
            index_view(r) == resolve_gid_model(self@, query_gid),
            r matches Ok(Some((i, _))) ==> i < self@.len(),
    {
        reveal(resolve_gid_model);
        let g = match query_gid {
            None => {
                return Ok(None);
            },
            Some(g) => g,
        };
        let devs = self.devices.iter();
        let mut i: usize = 0;
        while i < devs.len()
            invariant
                i <= devs@.len(),
                devs@.map_values(|d: DeviceEntry| d@) == self@,
                query_gid == Some(g),
                forall|j: int| 0 <= j < i ==> ports_gid_find((#[trigger] self@[j]).ports, g) is None,
            decreases devs@.len() - i,
        {
            let ports = devs[i].iter_port();
            assert(self@[i as int] == devs@[i as int]@);
            match ports_find_gid(ports, g) {
                Some(e) => {
                    proof {
                        lemma_first_index_is(
                            self@,
                            |d: DeviceModel| ports_gid_find(d.ports, g) is Some,
                            i as int,
                        );
                        assert(gid_device_index(self@, g) == Some(i as int));
                        assert(ports_gid_find(self@[i as int].ports, g) == Some(e));
                        reveal(resolve_gid_model);
                    }
                    return Ok(Some((i, e)));
                },
                None => {},
            }
            i = i + 1;
        }
        proof {
            lemma_first_index_none(self@, |d: DeviceModel| ports_gid_find(d.ports, g) is Some);
        }
        Err(CoordinatorRestError::GidNotFound(g))
    }

    /// Looks up the virtual LID `query_lid`, if one is asked for: the position of
    /// the first device that has a port with it and that port's LID pair.
    pub fn resolve_lid(&self, query_lid: Option<u32>) -> (r: Result<
        Option<(usize, Virt<u32>)>,
        CoordinatorRestError,
    >)
        ensures
            index_view(r) == resolve_lid_model(self@, query_lid),
            r matches Ok(Some((i, _))) ==> i < self@.len(),
    {
        reveal(resolve_lid_model);
        let l = match query_lid {
            None => {
                return Ok(None);
            },
            Some(l) => l,
        };
        let devs = self.devices.iter();
        let mut i: usize = 0;
        while i < devs.len()
            invariant
                i <= devs@.len(),
                devs@.map_values(|d: DeviceEntry| d@) == self@,
                query_lid == Some(l),
                forall|j: int| 0 <= j < i ==> port_lid_index((#[trigger] self@[j]).ports, l) is None,
            decreases devs@.len() - i,
        {
            let ports = devs[i].iter_port();
            assert(self@[i as int] == devs@[i as int]@);
            match ports_find_lid(ports, l) {
                Some(v) => {
                    proof {
                        lemma_first_index_is(
                            self@,
                            |d: DeviceModel| port_lid_index(d.ports, l) is Some,
                            i as int,
                        );
                        reveal(resolve_lid_model);
                    }
                    return Ok(Some((i, v)));
                },
                None => {},
            }
            i = i + 1;
        }
        proof {
            lemma_first_index_none(self@, |d: DeviceModel| port_lid_index(d.ports, l) is Some);
        }
        Err(CoordinatorRestError::LidNotFound(l))
    }

    /// Resolves the virtual addresses of the query to the real ones.
    pub fn resolve_qp(&self, query: ResolveQpQuery) -> (r: Result<ResolveQpResp, CoordinatorRestError>)
        ensures
            r == resolve_qp_model(self@, query),
    {
        let gid_search = match self.resolve_gid(query.gid) {
            Ok(s) => s,
            Err(e) => {
                return Err(e);
            },
        };
        let lid_search = match self.resolve_lid(query.lid) {
            Ok(s) => s,
            Err(e) => {
                return Err(e);
            },
        };
        let devs = self.devices.iter();
        let qs = match (gid_search, lid_search) {
            (Some((a, _)), None) => {
                assert(self@[a as int] == devs@[a as int]@);
                resolve_qpn(&devs[a], query.qpn)
            },
            (None, Some((b, _))) => {
                assert(self@[b as int] == devs@[b as int]@);
                resolve_qpn(&devs[b], query.qpn)
            },
            (Some((a, _)), Some((b, _))) => {
                assert(self@[a as int] == devs@[a as int]@);
                assert(self@[b as int] == devs@[b as int]@);
                if devs[a].uuid() != devs[b].uuid() {
                    Err(CoordinatorRestError::DeviceConflict)
                } else {
                    resolve_qpn(&devs[a], query.qpn)
                }
            },
            (None, None) => match query.qpn {
                Some(n) => Err(CoordinatorRestError::QpNotFound(n)),
                None => Ok(None),
            },
        };
        let qp_search = match qs {
            Ok(q) => q,
            Err(e) => {
                return Err(e);
            },
        };
        Ok(
            ResolveQpResp {
                gid: match gid_search {
                    Some((_, e)) => Some(e.real.gid),
                    None => None,
                },
                lid: match lid_search {
                    Some((_, l)) => Some(l.real),
                    None => None,
                },
                qpn: match qp_search {
                    Some(v) => Some(v.real),
                    None => None,
                },
            },
        )
    }
}

impl CoordState {
    /// Resolves the virtual addresses of the query in `network` to the real ones.
    pub fn route_resolve_qp(&self, network: u128, query: ResolveQpQuery) -> (r: Result<
        ResolveQpResp,
        CoordinatorRestError,
    >)
        ensures
            r == if self@.contains_key(network) {
                resolve_qp_model(self@[network], query)
            } else {
                Err(CoordinatorRestError::NetworkUuidNotFound(network))
            },
    {
        match self.network(network) {
            Some(net) => net.resolve_qp(query),
            None => Err(CoordinatorRestError::NetworkUuidNotFound(network)),
        }
    }

    /// The devices of `network`.
    pub fn route_devices_get(&self, network: u128) -> (r: Result<&DeviceTable, CoordinatorRestError>)
        ensures
            match r {
                Ok(t) => self@.contains_key(network) && t@ == self@[network],
                Err(e) => !self@.contains_key(network) && e
                    == CoordinatorRestError::NetworkUuidNotFound(network),
            },
    {
        match self.network(network) {
            Some(net) => Ok(&net.devices),
            None => Err(CoordinatorRestError::NetworkUuidNotFound(network)),
        }
    }
}

} // verus!
