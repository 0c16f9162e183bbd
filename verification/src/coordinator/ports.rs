//! Registering ports and QPs of a device, and the virtual LIDs of ports.

use vstd::prelude::*;
use crate::types::{
    CreatePortQuery, CreatePortResp, SetPortAttrQuery, SetPortAttrResp, CreateQpQuery, CreateQpResp,
};
use crate::coordinator::errors::CoordinatorRestError;
use crate::coordinator::state::{
    Virt, PortModel, DeviceModel, NetworkState, CoordState, device_index, lemma_first_index_some,
};
use crate::coordinator::routes::{
    device_wf, network_wf, coord_wf, update_port, in_network, random_u64, lemma_update_port_wf,
    lemma_coord_wf_insert,
};

verus! {

/// The GID table length the coordinator announces for every port it registers.
pub const ANNOUNCED_GID_TBL_LEN: u32 = 2;

/// Registering a port of `device` with the attributes of the query: it gets the
/// next virtual port id (ports count from 1). Gives the new devices and the answer.
pub open spec fn port_post_model(
    net: Seq<DeviceModel>,
    network: u128,
    device: u128,
    q: CreatePortQuery,
) -> (Seq<DeviceModel>, Result<CreatePortResp, CoordinatorRestError>) {
    match device_index(net, device) {
        None => (net, Err(CoordinatorRestError::DeviceUuidNotFound(network, device))),
        Some(di) => {
            let id = (net[di].ports.len() + 1) as u16;
            let p = PortModel {
                id: Virt { real: q.port, virt: id },
                lid: None,
                pkey_tbl_len: q.pkey_tbl_len,
                gid_tbl_len: q.gid_tbl_len,
                core_cap_flags: q.core_cap_flags,
                max_mad_size: q.max_mad_size,
                gids: Seq::empty(),
            };
            (
                net.update(di, DeviceModel { ports: net[di].ports.push(p), ..net[di] }),
                Ok(
                    CreatePortResp {
                        port: id,
                        pkey_tbl_len: q.pkey_tbl_len,
                        gid_tbl_len: ANNOUNCED_GID_TBL_LEN,
                        core_cap_flags: q.core_cap_flags,
                        max_mad_size: q.max_mad_size,
                    },
                ),
            )
        },
    }
}

/// Asking for the virtual LID of port `port_id` of `device` with the real LID of
/// the query: a port whose LID is set for that real LID keeps its virtual LID;
/// otherwise the port's LID becomes the real LID of the query with the virtual
/// LID that `pick_lid` makes of the draw `cand`. Gives the new devices and the
/// answer.
pub open spec fn port_attr_model(
    net: Seq<DeviceModel>,
    network: u128,
    device: u128,
    port_id: u16,
    q: SetPortAttrQuery,
    cand: u16,
) -> (Seq<DeviceModel>, Result<SetPortAttrResp, CoordinatorRestError>) {
    match device_index(net, device) {
        None => (net, Err(CoordinatorRestError::DeviceUuidNotFound(network, device))),
        Some(di) => if port_id - 1 >= net[di].ports.len() {
            (net, Err(CoordinatorRestError::PortNotFound(device, port_id)))
        } else {
            let pi = port_id - 1;
            let port = net[di].ports[pi];
            match port.lid {
                Some(l) if l.real == q.lid => (net, Ok(SetPortAttrResp { lid: l.virt })),
                _ => {
                    let v = pick_lid(cand, port.lid) as u32;
                    (
                        update_port(
                            net,
                            di,
                            pi,
                            PortModel { lid: Some(Virt { real: q.lid, virt: v }), ..port },
                        ),
                        Ok(SetPortAttrResp { lid: v }),
                    )
                },
            }
        },
    }
}

/// Whether `v` can be the new virtual LID of a port whose LID was `cur`: it is
/// not 0 and not the virtual LID the port had.
pub open spec fn lid_usable(v: u16, cur: Option<Virt<u32>>) -> bool {
    v != 0 && (cur matches Some(l) ==> v as u32 != l.virt)
}

/// The new virtual LID made of the random draw `cand` for a port whose LID was
/// `cur`: the draw itself where usable, else the draw with its lowest bit
/// flipped where that is usable, else the draw with its second bit flipped.
pub open spec fn pick_lid(cand: u16, cur: Option<Virt<u32>>) -> u16 {
    if lid_usable(cand, cur) {
        cand
    } else if lid_usable(cand ^ 1, cur) {
        cand ^ 1
    } else {
        cand ^ 2
    }
}

/// Whatever was drawn, the LID `pick_lid` makes of it is usable: the draw and the
/// draw with either of its two lowest bits flipped are three different values, so
/// at most two of them are excluded.
pub proof fn lemma_pick_lid_usable(cand: u16, cur: Option<Virt<u32>>)
    ensures
        lid_usable(pick_lid(cand, cur), cur),
        pick_lid(cand, cur) < 0x10000,
{
    assert(cand != cand ^ 1 && cand != cand ^ 2 && cand ^ 1 != cand ^ 2) by (bit_vector);
}

/// Makes the new virtual LID of a port out of a draw, as `pick_lid` states; it
/// is always usable.
pub fn pick_lid_exec(cand: u16, cur: Option<Virt<u32>>) -> (r: u16)
    ensures
        r == pick_lid(cand, cur),
        lid_usable(r, cur),
{
    proof {
        lemma_pick_lid_usable(cand, cur);
    }
    let avoid: u32 = match cur {
        Some(l) => l.virt,
        None => 0,
    };
    if cand != 0 && cand as u32 != avoid {
        cand
    } else if cand ^ 1 != 0 && (cand ^ 1) as u32 != avoid {
        cand ^ 1
    } else {
        cand ^ 2
    }
}

/// The virtual QP number made of the random number `cand`: 32 more, wrapped to
/// 32 bits, then taken modulo 2^24.
pub open spec fn qp_virt_number(cand: u32) -> u32 {
    (((cand + 32) % 0x1_0000_0000) % 0x100_0000) as u32
}

/// Registering a QP of `device` with the real number of the query and the
/// virtual number made of `cand`. Gives the new devices and the answer.
pub open spec fn create_qp_model(
    net: Seq<DeviceModel>,
    network: u128,
    device: u128,
    q: CreateQpQuery,
    cand: u32,
) -> (Seq<DeviceModel>, Result<CreateQpResp, CoordinatorRestError>) {
    match device_index(net, device) {
        None => (net, Err(CoordinatorRestError::DeviceUuidNotFound(network, device))),
        Some(di) => {
            let v = qp_virt_number(cand);
            (
                net.update(
                    di,
                    DeviceModel { qps: net[di].qps.push(Virt { real: q.qpn, virt: v }), ..net[di] },
                ),
                Ok(CreateQpResp { qpn: v }),
            )
        },
    }
}

/// The virtual QP number made of `cand`, as `qp_virt_number` states.
pub fn qp_virt_number_exec(cand: u32) -> (r: u32)
    ensures
        r == qp_virt_number(cand),
{
    let w = cand.wrapping_add(32);
    proof {
        if cand + 32 > u32::MAX {
            assert(w == cand + 32 - 0x1_0000_0000);
            assert((cand + 32) % 0x1_0000_0000 == cand + 32 - 0x1_0000_0000);
        } else {
            assert((cand + 32) % 0x1_0000_0000 == cand + 32);
        }
    }
    let r = w % 0x100_0000;
    r
}

impl NetworkState {
    /// Registers a port of `device` with the attributes of the query.
    pub fn port_post(&mut self, network: u128, device: u128, query: CreatePortQuery) -> (r: Result<
        CreatePortResp,
        CoordinatorRestError,
    >)
        requires
            network_wf(old(self)@),
            match device_index(old(self)@, device) {
                Some(di) => old(self)@[di].ports.len() < 65535,
                None => true,
            },
        ensures
            (final(self)@, r) == port_post_model(old(self)@, network, device, query),
            network_wf(final(self)@),
    {
        let ghost old_net = self@;
        let dev = match self.devices.by_device(device) {
            Some(d) => d,
            None => {
                return Err(CoordinatorRestError::DeviceUuidNotFound(network, device));
            },
        };
        proof {
            lemma_first_index_some(old_net, |m: DeviceModel| m.device == device);
        }
        let port = dev.add_port(query.port).set_pkey_tbl_len(query.pkey_tbl_len).set_gid_tbl_len(
            query.gid_tbl_len,
        ).set_core_cap_flags(query.core_cap_flags).set_max_mad_size(query.max_mad_size);
        let id = port.port_id().virt;
        let ghost di = device_index(old_net, device)->0;
        proof {
            let new_net = final(self)@;
            assert forall|i: int| 0 <= i < new_net.len() implies device_wf(#[trigger] new_net[i]) by {
                if i == di {
                    let d = new_net[i];
                    assert forall|k: int| 0 <= k < d.ports.len() implies (#[trigger] d.ports[k]).id.virt
                        == k + 1 && d.ports[k].gids.len() <= d.ports[k].gid_tbl_len by {
                        if k < old_net[di].ports.len() {
                            assert(d.ports[k] == old_net[di].ports[k]);
                        }
                    }
                }
            }
        }
        Ok(
            CreatePortResp {
                port: id,
                pkey_tbl_len: query.pkey_tbl_len,
                gid_tbl_len: ANNOUNCED_GID_TBL_LEN,
                core_cap_flags: query.core_cap_flags,
                max_mad_size: query.max_mad_size,
            },
        )
    }
}

impl NetworkState {
    /// Answers the virtual LID of port `port_id` of `device` for the real LID of the
    /// query, with `cand` as the virtual LID where the port gets a new one.
    pub fn port_attr_post(
        &mut self,
        network: u128,
        device: u128,
        port_id: u16,
        query: SetPortAttrQuery,
        cand: u16,
    ) -> (r: Result<SetPortAttrResp, CoordinatorRestError>)
        requires
            network_wf(old(self)@),
            device_index(old(self)@, device) is Some ==> port_id >= 1,
        ensures
            (final(self)@, r) == port_attr_model(old(self)@, network, device, port_id, query, cand),
            network_wf(final(self)@),
            r matches Ok(resp) ==> 0 < resp.lid < 0x10000,
    {
        let ghost old_net = self@;
        let dev = match self.devices.by_device(device) {
            Some(d) => d,
            None => {
                return Err(CoordinatorRestError::DeviceUuidNotFound(network, device));
            },
        };
        proof {
            lemma_first_index_some(old_net, |m: DeviceModel| m.device == device);
        }
        let ghost di = device_index(old_net, device)->0;
        let port = match dev.get_port_mut(port_id) {
            Some(p) => p,
            None => {
                assert(old_net.update(di, old_net[di]) =~= old_net);
                return Err(CoordinatorRestError::PortNotFound(device, port_id));
            },
        };
        let ghost pi = port_id - 1;
        let ghost old_port = old_net[di].ports[pi];
        proof {
            assert(crate::coordinator::routes::device_wf(old_net[di]));
            assert(crate::coordinator::routes::lid_valid(old_port.lid));
        }
        match port.port_lid() {
            Some(l) => {
                if l.real == query.lid {
                    assert(old_net[di].ports.update(pi, old_port) =~= old_net[di].ports);
                    assert(old_net.update(di, old_net[di]) =~= old_net);
                    return Ok(SetPortAttrResp { lid: l.virt });
                }
            },
            None => {},
        }
        let v = pick_lid_exec(cand, port.port_lid()) as u32;
        port.set_lid(Virt::new(query.lid, v));
        proof {
            lemma_update_port_wf(old_net, di, pi, final(port)@);
        }
        Ok(SetPortAttrResp { lid: v })
    }

    /// Registers a QP of `device` with the real number of the query and the
    /// virtual number made of `cand`.
    pub fn create_qp(&mut self, network: u128, device: u128, query: CreateQpQuery, cand: u32) -> (r:
        Result<CreateQpResp, CoordinatorRestError>)
        requires
            network_wf(old(self)@),
        ensures
            (final(self)@, r) == create_qp_model(old(self)@, network, device, query, cand),
            network_wf(final(self)@),
    {
        let ghost old_net = self@;
        let dev = match self.devices.by_device(device) {
            Some(d) => d,
            None => {
                return Err(CoordinatorRestError::DeviceUuidNotFound(network, device));
            },
        };
        proof {
            lemma_first_index_some(old_net, |m: DeviceModel| m.device == device);
        }
        let v = qp_virt_number_exec(cand);
        let _qp = dev.add_qp(Virt::new(query.qpn, v));
        proof {
            let di = device_index(old_net, device)->0;
            let new_net = final(self)@;
            assert forall|i: int| 0 <= i < new_net.len() implies device_wf(#[trigger] new_net[i]) by {
                if i == di {
                    assert(new_net[i].ports == old_net[di].ports);
                }
            }
        }
        Ok(CreateQpResp { qpn: v })
    }
}

impl CoordState {
    /// Registers a port of `device` in `network` with the attributes of the query.
    pub fn route_port_post(&mut self, network: u128, device: u128, query: CreatePortQuery) -> (r:
        Result<CreatePortResp, CoordinatorRestError>)
        requires
            coord_wf(old(self)@),
            old(self)@.contains_key(network) ==> match device_index(old(self)@[network], device) {
                Some(di) => old(self)@[network][di].ports.len() < 65535,
                None => true,
            },
        ensures
            (final(self)@, r) == in_network(
                old(self)@,
                network,
                port_post_model(old(self)@[network], network, device, query),
            ),
            coord_wf(final(self)@),
    {
        let mut net = match self.take_network(network) {
            Some(n) => n,
            None => {
                assert(old(self)@.remove(network) =~= old(self)@);
                return Err(CoordinatorRestError::NetworkUuidNotFound(network));
            },
        };
        let r = net.port_post(network, device, query);
        self.put_network(network, net);
        proof {
            lemma_coord_wf_insert(old(self)@, network, final(self)@[network]);
            assert(final(self)@ =~= old(self)@.insert(network, final(self)@[network]));
        }
        r
    }

    /// Answers the virtual LID of port `port_id` of `device` in `network` for the
    /// real LID of the query, with `cand` as the virtual LID where the port gets a
    /// new one.
    pub fn port_attr_post_with(
        &mut self,
        network: u128,
        device: u128,
        port_id: u16,
        query: SetPortAttrQuery,
        cand: u16,
    ) -> (r: Result<SetPortAttrResp, CoordinatorRestError>)
        requires
            coord_wf(old(self)@),
            old(self)@.contains_key(network) && device_index(old(self)@[network], device) is Some
                ==> port_id >= 1,
        ensures
            (final(self)@, r) == in_network(
                old(self)@,
                network,
                port_attr_model(old(self)@[network], network, device, port_id, query, cand),
            ),
            coord_wf(final(self)@),
            r matches Ok(resp) ==> 0 < resp.lid < 0x10000,
    {
        let mut net = match self.take_network(network) {
            Some(n) => n,
            None => {
                assert(old(self)@.remove(network) =~= old(self)@);
                return Err(CoordinatorRestError::NetworkUuidNotFound(network));
            },
        };
        let r = net.port_attr_post(network, device, port_id, query, cand);
        self.put_network(network, net);
        proof {
            lemma_coord_wf_insert(old(self)@, network, final(self)@[network]);
            assert(final(self)@ =~= old(self)@.insert(network, final(self)@[network]));
        }
        r
    }

    /// Answers the virtual LID of port `port_id` of `device` in `network` for the
    /// real LID of the query; a port that gets a new virtual LID gets a random
    /// 16-bit one. See [`CoordState::port_attr_post_with`].
    pub fn route_port_attr_post(
        &mut self,
        network: u128,
        device: u128,
        port_id: u16,
        query: SetPortAttrQuery,
    ) -> (r: Result<SetPortAttrResp, CoordinatorRestError>)
        requires
            coord_wf(old(self)@),
            old(self)@.contains_key(network) && device_index(old(self)@[network], device) is Some
                ==> port_id >= 1,
        ensures
            exists|cand: u16|
                (final(self)@, r) == #[trigger] in_network(
                    old(self)@,
                    network,
                    port_attr_model(old(self)@[network], network, device, port_id, query, cand),
                ),
            coord_wf(final(self)@),
            r matches Ok(resp) ==> 0 < resp.lid < 0x10000,
    {
        let cand = random_u64() as u16;
        self.port_attr_post_with(network, device, port_id, query, cand)
    }

    /// Registers a QP of `device` in `network` with the real number of the query
    /// and the virtual number made of `cand`.
    pub fn create_qp_with(&mut self, network: u128, device: u128, query: CreateQpQuery, cand: u32) -> (r:
        Result<CreateQpResp, CoordinatorRestError>)
        requires
            coord_wf(old(self)@),
        ensures
            (final(self)@, r) == in_network(
                old(self)@,
                network,
                create_qp_model(old(self)@[network], network, device, query, cand),
            ),
            coord_wf(final(self)@),
    {
        let mut net = match self.take_network(network) {
            Some(n) => n,
            None => {
                assert(old(self)@.remove(network) =~= old(self)@);
                return Err(CoordinatorRestError::NetworkUuidNotFound(network));
            },
        };
        let r = net.create_qp(network, device, query, cand);
        self.put_network(network, net);
        proof {
            lemma_coord_wf_insert(old(self)@, network, final(self)@[network]);
            assert(final(self)@ =~= old(self)@.insert(network, final(self)@[network]));
        }
        r
    }

    /// Registers a QP of `device` in `network` with the real number of the query
    /// and a virtual number made of a random 32-bit number. See
    /// [`CoordState::create_qp_with`].
    pub fn route_create_qp(&mut self, network: u128, device: u128, query: CreateQpQuery) -> (r: Result<
        CreateQpResp,
        CoordinatorRestError,
    >)
        requires
            coord_wf(old(self)@),
        ensures
            exists|cand: u32|
                (final(self)@, r) == #[trigger] in_network(
                    old(self)@,
                    network,
                    create_qp_model(old(self)@[network], network, device, query, cand),
                ),
            coord_wf(final(self)@),
    {
        let cand = random_u64() as u32;
        self.create_qp_with(network, device, query, cand)
    }
}

} // verus!
