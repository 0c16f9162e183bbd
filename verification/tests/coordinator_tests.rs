use ovey::types::{
    Gid, LeaseDeviceQuery, LeaseGidQuery, SetGidQuery, CreatePortQuery, SetPortAttrQuery,
    CreateQpQuery, ResolveQpQuery,
};
use ovey::coordinator::state::{CoordState, DeviceEntry, PortEntry, Virt, GidEntry};
use ovey::coordinator::errors::{CoordinatorRestError, STATUS_NOT_FOUND, STATUS_CONFLICT};
use ovey::coordinator::routes::{STATUS_OK, STATUS_CREATED, DEFULT_GID_PREFIX};
use ovey::coordinator::ports::{qp_virt_number_exec, pick_lid_exec};
use ovey::coordinator::routes::differing_from_exec;

const GUID: u64 = 444;
const NET: u128 = 0x1111;
const DEV: u128 = 0x2222;

fn port_query(gid_tbl_len: u32) -> CreatePortQuery {
    CreatePortQuery { port: 1, pkey_tbl_len: 16, gid_tbl_len, core_cap_flags: 0, max_mad_size: 16 }
}

#[test]
fn lease_device_twice_keeps_the_virtual_guid() {
    let mut s = CoordState::new();
    let (st1, r1) = s.guid_post_with(NET, DEV, LeaseDeviceQuery { guid: GUID }, 0x9999, std::time::Instant::now());
    assert_eq!(st1, STATUS_CREATED);
    assert_eq!(r1.guid, 0x9999);
    let (st2, r2) = s.route_guid_post(NET, DEV, LeaseDeviceQuery { guid: GUID });
    assert_eq!(st2, STATUS_OK);
    assert_eq!(r2.guid, r1.guid);
    let devs = s.route_devices_get(NET).unwrap();
    assert_eq!(devs.iter().len(), 1);
    assert_eq!(devs.iter()[0].device_guid().unwrap().real, GUID);
    assert!(s.route_devices_get(0x4242).is_err());
}

#[test]
fn new_gid_request_flow() {
    let mut s = CoordState::new();
    let real = Gid { subnet_prefix: DEFULT_GID_PREFIX, interface_id: 5 };
    let (st, guid) = s.guid_post_with(NET, DEV, LeaseDeviceQuery { guid: GUID }, 0x7777, std::time::Instant::now());
    assert_eq!(st, STATUS_CREATED);
    assert_ne!(GUID, guid.guid);

    let port = s.route_port_post(NET, DEV, port_query(16)).unwrap();
    assert_eq!(port.port, 1);
    assert_eq!(port.gid_tbl_len, 2);
    assert_eq!(port.pkey_tbl_len, 16);

    let attr1 = s.port_attr_post_with(NET, DEV, port.port, SetPortAttrQuery { lid: 0 }, 77).unwrap();
    assert_eq!(attr1.lid, 77);
    let attr2 = s.port_attr_post_with(NET, DEV, port.port, SetPortAttrQuery { lid: 0 }, 88).unwrap();
    assert_eq!(attr2.lid, attr1.lid);
    let attr = s.port_attr_post_with(NET, DEV, port.port, SetPortAttrQuery { lid: 1 }, 99).unwrap();
    assert_ne!(attr2.lid, attr.lid);
    assert!(attr.lid < (1 << 16));

    let query = LeaseGidQuery { idx: 0, gid: real };
    assert!(s.gid_post_is_ready(NET, DEV, port.port, query));
    let gid = s.gid_post_with(NET, DEV, port.port, query, 1234).unwrap();
    assert_eq!(gid.idx, query.idx);
    assert_eq!(gid.gid, Gid { subnet_prefix: DEFULT_GID_PREFIX, interface_id: 1234 });
    assert_ne!(gid.gid.interface_id, query.gid.interface_id);

    let qp = s.create_qp_with(NET, DEV, CreateQpQuery { qpn: 42 }, 7).unwrap();
    assert_eq!(qp.qpn, 39);
    assert_ne!(qp.qpn, 42);

    let resolved = s.route_resolve_qp(NET, ResolveQpQuery { gid: Some(gid.gid), lid: None, qpn: Some(qp.qpn) }).unwrap();
    assert_eq!(resolved.gid, Some(real));
    assert_eq!(resolved.qpn, Some(42));
    assert_eq!(resolved.lid, None);

    let put = s.route_gid_put(NET, DEV, port.port, SetGidQuery { real_idx: 0, virt_idx: gid.idx, real, virt: gid.gid }).unwrap();
    assert_eq!(put.virt_idx, gid.idx);
    assert_eq!(put.real_idx, 0);
    assert_eq!(put.real, real);
    assert_eq!(put.virt, gid.gid);

    let err = s.route_gid_put(NET, DEV, port.port, SetGidQuery { real_idx: 1, virt_idx: 15, real, virt: gid.gid }).unwrap_err();
    assert_eq!(err, CoordinatorRestError::GidConflict);
    assert_eq!(err.status_code(), STATUS_CONFLICT);

    let again = s.route_gid_put(NET, DEV, port.port, SetGidQuery { real_idx: 1, virt_idx: gid.idx, real, virt: gid.gid }).unwrap();
    assert_eq!(again.real_idx, 1);
    assert_eq!(again.virt_idx, gid.idx);
}

#[test]
fn put_gids_then_resolve() {
    let mut s = CoordState::new();
    s.guid_post_with(NET, DEV, LeaseDeviceQuery { guid: GUID }, 1, std::time::Instant::now());
    let port = s.route_port_post(NET, DEV, port_query(16)).unwrap();
    let q1 = SetGidQuery {
        virt_idx: 0,
        real_idx: 0,
        virt: Gid { subnet_prefix: DEFULT_GID_PREFIX, interface_id: 11 },
        real: Gid { subnet_prefix: 12, interface_id: 13 },
    };
    let r1 = s.route_gid_put(NET, DEV, port.port, q1).unwrap();
    assert_eq!(r1.virt, q1.virt);
    assert_eq!(r1.real, q1.real);
    let q2 = SetGidQuery {
        virt_idx: 1,
        real_idx: 1,
        virt: Gid { subnet_prefix: DEFULT_GID_PREFIX, interface_id: 14 },
        real: Gid { subnet_prefix: 0, interface_id: 15 },
    };
    s.route_gid_put(NET, DEV, port.port, q2).unwrap();
    let qp = s.create_qp_with(NET, DEV, CreateQpQuery { qpn: 42 }, 0xffff_fff0).unwrap();
    assert_eq!(qp.qpn, 16);
    let resolved = s.route_resolve_qp(NET, ResolveQpQuery { gid: Some(q2.virt), lid: None, qpn: Some(qp.qpn) }).unwrap();
    assert_eq!(resolved.gid, Some(Gid { subnet_prefix: 0, interface_id: 15 }));
    assert_eq!(resolved.qpn, Some(42));
}

#[test]
fn unique_gids_and_missing_things() {
    let mut s = CoordState::new();
    let dev_b: u128 = 0x3333;
    s.guid_post_with(NET, DEV, LeaseDeviceQuery { guid: 1 }, 10, std::time::Instant::now());
    let port_a = s.route_port_post(NET, DEV, port_query(16)).unwrap();
    s.guid_post_with(NET, dev_b, LeaseDeviceQuery { guid: 2 }, 20, std::time::Instant::now());
    let q = SetGidQuery {
        virt_idx: 0,
        real_idx: 0,
        virt: Gid { subnet_prefix: DEFULT_GID_PREFIX, interface_id: 500 },
        real: Gid { subnet_prefix: 600, interface_id: 700 },
    };
    let err = s.route_gid_put(NET, dev_b, 1, q).unwrap_err();
    assert_eq!(err, CoordinatorRestError::PortNotFound(dev_b, 1));
    assert_eq!(err.status_code(), STATUS_NOT_FOUND);
    s.route_gid_put(NET, DEV, port_a.port, q).unwrap();
    let port_b = s.route_port_post(NET, dev_b, port_query(16)).unwrap();
    let clash = s.route_gid_put(NET, dev_b, port_b.port, q).unwrap_err();
    assert_eq!(clash, CoordinatorRestError::GidConflict);
    assert_eq!(
        s.route_gid_put(0x9, DEV, 1, q).unwrap_err(),
        CoordinatorRestError::NetworkUuidNotFound(0x9)
    );
    assert_eq!(
        s.route_port_post(NET, 0x5, port_query(1)).unwrap_err(),
        CoordinatorRestError::DeviceUuidNotFound(NET, 0x5)
    );
}

#[test]
fn gid_lease_refusals() {
    let mut s = CoordState::new();
    s.guid_post_with(NET, DEV, LeaseDeviceQuery { guid: 1 }, 10, std::time::Instant::now());
    let port = s.route_port_post(NET, DEV, port_query(1)).unwrap();
    let real = Gid { subnet_prefix: 3, interface_id: 9 };
    let first = s.gid_post_with(NET, DEV, port.port, LeaseGidQuery { idx: 0, gid: real }, 100).unwrap();
    assert_eq!(first.idx, 0);
    let full = s.gid_post_with(NET, DEV, port.port, LeaseGidQuery { idx: 1, gid: Gid { subnet_prefix: 3, interface_id: 10 } }, 101);
    assert_eq!(full.unwrap_err(), CoordinatorRestError::GidConflict);
    let missing = s.gid_post_with(NET, DEV, 2, LeaseGidQuery { idx: 0, gid: real }, 102);
    assert_eq!(missing.unwrap_err(), CoordinatorRestError::PortNotFound(DEV, 2));
    assert!(s.gid_post_is_ready(NET, DEV, port.port, LeaseGidQuery { idx: 5, gid: real }));
    let roomy = s.route_port_post(NET, DEV, port_query(4)).unwrap();
    assert_eq!(roomy.port, 2);
    assert!(!s.gid_post_is_ready(NET, DEV, roomy.port, LeaseGidQuery { idx: 5, gid: real }));
    assert!(s.gid_post_is_ready(NET, DEV, roomy.port, LeaseGidQuery { idx: 0, gid: real }));
    assert!(!s.gid_post_is_ready(NET, DEV, 0, LeaseGidQuery { idx: 0, gid: real }));
    assert!(s.gid_post_is_ready(NET, 0x77, 0, LeaseGidQuery { idx: 0, gid: real }));
}

#[test]
fn resolve_refusals() {
    let mut s = CoordState::new();
    s.guid_post_with(NET, DEV, LeaseDeviceQuery { guid: 1 }, 10, std::time::Instant::now());
    let port = s.route_port_post(NET, DEV, port_query(4)).unwrap();
    let lid = s.port_attr_post_with(NET, DEV, port.port, SetPortAttrQuery { lid: 5 }, 6).unwrap();
    let by_lid = s.route_resolve_qp(NET, ResolveQpQuery { gid: None, lid: Some(lid.lid), qpn: None }).unwrap();
    assert_eq!(by_lid.lid, Some(5));
    assert_eq!(
        s.route_resolve_qp(NET, ResolveQpQuery { gid: None, lid: None, qpn: Some(3) }).unwrap_err(),
        CoordinatorRestError::QpNotFound(3)
    );
    assert_eq!(
        s.route_resolve_qp(NET, ResolveQpQuery { gid: None, lid: Some(1000), qpn: None }).unwrap_err(),
        CoordinatorRestError::LidNotFound(1000)
    );
    let g = Gid { subnet_prefix: 1, interface_id: 2 };
    assert_eq!(
        s.route_resolve_qp(NET, ResolveQpQuery { gid: Some(g), lid: None, qpn: None }).unwrap_err(),
        CoordinatorRestError::GidNotFound(g)
    );
    assert_eq!(
        s.route_resolve_qp(NET, ResolveQpQuery { gid: None, lid: Some(lid.lid), qpn: Some(77) }).unwrap_err(),
        CoordinatorRestError::QpNotFound(77)
    );
    assert_eq!(
        s.route_resolve_qp(NET, ResolveQpQuery { gid: None, lid: None, qpn: None }).unwrap().gid,
        None
    );
}

#[test]
fn random_routes_keep_their_promises() {
    let mut s = CoordState::new();
    let (st, first) = s.route_guid_post(NET, DEV, LeaseDeviceQuery { guid: GUID });
    assert_eq!(st, STATUS_CREATED);
    let port = s.route_port_post(NET, DEV, port_query(16)).unwrap();
    let a = s.route_port_attr_post(NET, DEV, port.port, SetPortAttrQuery { lid: 9 }).unwrap();
    let b = s.route_port_attr_post(NET, DEV, port.port, SetPortAttrQuery { lid: 9 }).unwrap();
    assert_eq!(a.lid, b.lid);
    assert!(a.lid < (1 << 16));
    let qp = s.route_create_qp(NET, DEV, CreateQpQuery { qpn: 1 }).unwrap();
    assert!(qp.qpn < (1 << 24));
    let real = Gid { subnet_prefix: 5, interface_id: 6 };
    let g = s.route_gid_post(NET, DEV, port.port, LeaseGidQuery { idx: 0, gid: real }).unwrap();
    assert_eq!(g.gid.subnet_prefix, DEFULT_GID_PREFIX);
    let (st2, second) = s.route_guid_post(NET, DEV, LeaseDeviceQuery { guid: GUID });
    assert_eq!(st2, STATUS_OK);
    assert_eq!(first.guid, second.guid);
}

#[test]
fn qp_numbers_wrap_and_fit_24_bits() {
    assert_eq!(qp_virt_number_exec(0), 32);
    assert_eq!(qp_virt_number_exec(u32::MAX), 31);
    assert_eq!(qp_virt_number_exec(0x00ff_ffff), 31);
}

#[test]
fn port_entries_keep_their_gids() {
    let mut p = PortEntry::new(Virt::new(3, 1));
    p.set_gid_tbl_len(2).set_pkey_tbl_len(5);
    assert_eq!(p.gid_table_len(), 2);
    assert_eq!(p.pkey_tbl_len, 5);
    let a = Virt::new(GidEntry::new(0, Gid { subnet_prefix: 1, interface_id: 2 }), GidEntry::new(0, Gid { subnet_prefix: 3, interface_id: 4 }));
    assert_eq!(p.add_gid(a), Ok(()));
    assert_eq!(p.add_gid(a), Err(CoordinatorRestError::GidConflict));
    assert!(!p.is_gid_unique(a));
    p.iter_gid_mut()[0].real.idx = 7;
    assert_eq!(p.iter_gid()[0].real.idx, 7);
    assert_eq!(p.find_gid_by_virt(a.virt), Some(0));
    p.set_gid_real(0, GidEntry::new(9, Gid { subnet_prefix: 5, interface_id: 6 }));
    assert_eq!(p.iter_gid()[0].real.gid, Gid { subnet_prefix: 5, interface_id: 6 });
    assert!(p.iter_gid()[0].virt.is_same_addr(&a.virt));
    assert_eq!(p.port_id(), Virt::new(3, 1));
    assert_eq!(p.port_lid(), None);
}

#[test]
fn renewing_a_lease_sets_its_time() {
    let mut d = DeviceEntry::new(42);
    let later = d.lease + std::time::Duration::from_secs(5);
    d.renew_lease(later);
    assert_eq!(d.lease, later);
    assert_eq!(d.uuid(), 42);
    assert_eq!(d.device_guid(), None);
}

#[test]
fn reserved_and_loopback_gids_are_refused() {
    let mut s = CoordState::new();
    s.guid_post_with(NET, DEV, LeaseDeviceQuery { guid: 1 }, 10, std::time::Instant::now());
    let port = s.route_port_post(NET, DEV, port_query(16)).unwrap();
    let reserved = Gid { subnet_prefix: DEFULT_GID_PREFIX, interface_id: 0 };
    let loopback = Gid { subnet_prefix: DEFULT_GID_PREFIX, interface_id: 1 };
    assert!(s.gid_post_is_ready(NET, DEV, port.port, LeaseGidQuery { idx: 9, gid: reserved }));
    assert_eq!(
        s.route_gid_post(NET, DEV, port.port, LeaseGidQuery { idx: 0, gid: reserved }).unwrap_err(),
        CoordinatorRestError::GidReserved
    );
    assert_eq!(
        s.gid_post_with(NET, DEV, port.port, LeaseGidQuery { idx: 0, gid: loopback }, 7).unwrap_err(),
        CoordinatorRestError::GidReserved
    );
    assert_eq!(
        s.gid_post_with(NET, DEV, 0, LeaseGidQuery { idx: 0, gid: loopback }, 7).unwrap_err(),
        CoordinatorRestError::GidReserved
    );
    let ok = s.gid_post_with(NET, DEV, port.port, LeaseGidQuery { idx: 0, gid: Gid { subnet_prefix: 1, interface_id: 2 } }, 7);
    assert_eq!(ok.unwrap().idx, 0);
}

#[test]
fn random_draws_avoid_the_real_values() {
    let mut s = CoordState::new();
    for _ in 0..20 {
        let dev = DEV + 1;
        let mut t = CoordState::new();
        let (_, r) = t.route_guid_post(NET, dev, LeaseDeviceQuery { guid: GUID });
        assert_ne!(r.guid, GUID);
    }
    s.guid_post_with(NET, DEV, LeaseDeviceQuery { guid: 1 }, 10, std::time::Instant::now());
    let port = s.route_port_post(NET, DEV, port_query(64)).unwrap();
    let first = s.port_attr_post_with(NET, DEV, port.port, SetPortAttrQuery { lid: 3 }, 0).unwrap();
    assert_eq!(first.lid, 1);
    let second = s.port_attr_post_with(NET, DEV, port.port, SetPortAttrQuery { lid: 4 }, 1).unwrap();
    assert_eq!(second.lid, 3);
    let third = s.port_attr_post_with(NET, DEV, port.port, SetPortAttrQuery { lid: 5 }, 3).unwrap();
    assert_eq!(third.lid, 2);
    for k in 0..20u64 {
        let real = Gid { subnet_prefix: 9, interface_id: 100 + k };
        let g = s.route_gid_post(NET, DEV, port.port, LeaseGidQuery { idx: k as u32, gid: real }).unwrap();
        assert_ne!(g.gid.interface_id, real.interface_id);
        let a = s.route_port_attr_post(NET, DEV, port.port, SetPortAttrQuery { lid: 1000 + k as u32 }).unwrap();
        assert_ne!(a.lid, 0);
        assert!(a.lid < (1 << 16));
    }
}

#[test]
fn leasing_a_known_device_renews_its_lease() {
    let mut s = CoordState::new();
    let t0 = std::time::Instant::now();
    s.guid_post_with(NET, DEV, LeaseDeviceQuery { guid: 1 }, 10, t0);
    let later = t0 + std::time::Duration::from_secs(30);
    let (st, r) = s.guid_post_with(NET, DEV, LeaseDeviceQuery { guid: 1 }, 11, later);
    assert_eq!(st, STATUS_OK);
    assert_eq!(r.guid, 10);
    let devs = s.route_devices_get(NET).unwrap();
    assert_eq!(devs.iter()[0].lease, later);
}

#[test]
fn draws_are_made_different() {
    assert_eq!(differing_from_exec(5, 5), 4);
    assert_eq!(differing_from_exec(4, 4), 5);
    assert_eq!(differing_from_exec(6, 5), 6);
    assert_eq!(pick_lid_exec(0, None), 1);
    assert_eq!(pick_lid_exec(7, None), 7);
    assert_eq!(pick_lid_exec(1, Some(Virt::new(3, 1))), 3);
    assert_eq!(pick_lid_exec(1, Some(Virt::new(3, 5))), 1);
}

#[test]
fn putting_a_known_virtual_gid_again() {
    let mut s = CoordState::new();
    s.guid_post_with(NET, DEV, LeaseDeviceQuery { guid: GUID }, 1, std::time::Instant::now());
    let port = s.route_port_post(NET, DEV, port_query(16)).unwrap();
    let real = Gid { subnet_prefix: DEFULT_GID_PREFIX, interface_id: 5 };
    let vg = s.gid_post_with(NET, DEV, port.port, LeaseGidQuery { idx: 0, gid: real }, 77).unwrap();
    let q1 = SetGidQuery { virt_idx: 15, real_idx: 1, virt: vg.gid, real };
    assert_eq!(s.route_gid_put(NET, DEV, port.port, q1).unwrap_err(), CoordinatorRestError::GidConflict);
    let q2 = SetGidQuery { virt_idx: vg.idx, real_idx: 1, virt: vg.gid, real };
    let r2 = s.route_gid_put(NET, DEV, port.port, q2).unwrap();
    assert_eq!((r2.virt_idx, r2.real_idx, r2.virt, r2.real), (vg.idx, 1, vg.gid, real));
    let devs = s.route_devices_get(NET).unwrap();
    let gids = devs.iter()[0].iter_port()[0].iter_gid();
    assert_eq!(gids.len(), 1);
    assert_eq!(gids[0].real, GidEntry::new(1, real));
    assert_eq!(gids[0].virt, GidEntry::new(vg.idx, vg.gid));
}
