//! The coordinator's state: for every virtual network the devices, their
//! ports with GID translations and LIDs, and their QPs.

use vstd::prelude::*;
use std::collections::HashMap;
use std::time::Instant;
use crate::types::Gid;
use crate::coordinator::errors::CoordinatorRestError;

verus! {

broadcast use vstd::std_specs::hash::group_hash_axioms;

#[verifier::external_type_specification]
#[verifier::external_body]
pub struct ExInstant(std::time::Instant);

/// Calls `Instant::now`. The current time is not a function of anything the
/// library holds, so nothing is stated of the result.
#[verifier::external_body]
pub fn instant_now() -> Instant {
    Instant::now()
}

/// Mapping a sequence after updating one element is updating the mapped sequence.
pub broadcast proof fn lemma_map_values_update<A, B>(s: Seq<A>, i: int, a: A, f: spec_fn(A) -> B)
    requires
        0 <= i < s.len(),
    ensures
        #[trigger] s.update(i, a).map_values(f) == s.map_values(f).update(i, f(a)),
{
    assert(s.update(i, a).map_values(f) =~= s.map_values(f).update(i, f(a)));
}

/// Mapping a sequence after pushing an element is pushing the mapped element.
pub broadcast proof fn lemma_map_values_push<A, B>(s: Seq<A>, a: A, f: spec_fn(A) -> B)
    ensures
        #[trigger] s.push(a).map_values(f) == s.map_values(f).push(f(a)),
{
    assert(s.push(a).map_values(f) =~= s.map_values(f).push(f(a)));
}

/// Overwriting the element just pushed is pushing the new element.
pub broadcast proof fn lemma_push_update_last<A>(s: Seq<A>, a: A, b: A)
    ensures
        #[trigger] s.push(a).update(s.len() as int, b) == s.push(b),
{
    assert(s.push(a).update(s.len() as int, b) =~= s.push(b));
}

/// A real value and the virtual value that stands for it.
#[derive(Debug, Clone, Copy, PartialEq, Eq, Structural)]
pub struct Virt<T> {
    pub real: T,
    pub virt: T,
}

impl<T> Virt<T> {
    /// Pairs a real value with its virtual one.
    pub fn new(real_value: T, virt_value: T) -> (r: Self)
        ensures
            r.real == real_value,
            r.virt == virt_value,
    {
        Virt { real: real_value, virt: virt_value }
    }
}

/// A GID together with its index in a GID table.
#[derive(Debug, Clone, Copy, PartialEq, Eq, Structural)]
pub struct GidEntry {
    pub idx: u32,
    pub gid: Gid,
}

impl GidEntry {
    /// A GID table entry.
    pub fn new(idx: u32, gid: Gid) -> (r: Self)
        ensures
            r.idx == idx,
            r.gid == gid,
    {
        GidEntry { idx: idx, gid: gid }
    }

    /// Whether both entries hold the same address (their indices may differ).
    pub fn is_same_addr(&self, other: &Self) -> (r: bool)
        ensures
            r == (self.gid == other.gid),
    {
        self.gid.subnet_prefix == other.gid.subnet_prefix && self.gid.interface_id
            == other.gid.interface_id
    }
}

/// No entry of `gids` has the virtual address of `g` or the real address of `g`.
pub open spec fn gid_unique_in(gids: Seq<Virt<GidEntry>>, g: Virt<GidEntry>) -> bool {
    forall|i: int|
        0 <= i < gids.len() ==> (#[trigger] gids[i]).virt.gid != g.virt.gid && gids[i].real.gid
            != g.real.gid
}

/// What the coordinator knows of a port.
pub ghost struct PortModel {
    pub id: Virt<u16>,
    pub lid: Option<Virt<u32>>,
    pub pkey_tbl_len: u32,
    pub gid_tbl_len: u32,
    pub core_cap_flags: u32,
    pub max_mad_size: u32,
    pub gids: Seq<Virt<GidEntry>>,
}

/// A port as it is registered: no LID, zero table sizes and no GIDs.
pub open spec fn new_port_model(id: Virt<u16>) -> PortModel {
    PortModel {
        id: id,
        lid: None,
        pkey_tbl_len: 0,
        gid_tbl_len: 0,
        core_cap_flags: 0,
        max_mad_size: 0,
        gids: Seq::empty(),
    }
}

/// A port of a virtualised device.
#[derive(Debug)]
pub struct PortEntry {
    pub id: Virt<u16>,
    pub lid: Option<Virt<u32>>,
    pub pkey_tbl_len: u32,
    pub gid_tbl_len: u32,
    pub core_cap_flags: u32,
    pub max_mad_size: u32,
    gid: Vec<Virt<GidEntry>>,
}

impl View for PortEntry {
    type V = PortModel;

    closed spec fn view(&self) -> PortModel {
        PortModel {
            id: self.id,
            lid: self.lid,
            pkey_tbl_len: self.pkey_tbl_len,
            gid_tbl_len: self.gid_tbl_len,
            core_cap_flags: self.core_cap_flags,
            max_mad_size: self.max_mad_size,
            gids: self.gid@,
        }
    }
}

impl PortEntry {
    /// A port with the given ids, no LID, zero table sizes and no GIDs.
    pub fn new(id: Virt<u16>) -> (r: Self)
        ensures
            r@ == new_port_model(id),
    {
        PortEntry {
            id: id,
            lid: None,
            pkey_tbl_len: 0,
            gid_tbl_len: 0,
            core_cap_flags: 0,
            max_mad_size: 0,
            gid: Vec::new(),
        }
    }

    /// Sets the P_Key table length.
    pub fn set_pkey_tbl_len(&mut self, pkey_tbl_len: u32) -> (r: &mut Self)
        ensures
            r@ == (PortModel { pkey_tbl_len: pkey_tbl_len, ..old(self)@ }),
            *final(self) == *final(r),
    {
        self.pkey_tbl_len = pkey_tbl_len;
        self
    }

    /// Sets the GID table length.
    pub fn set_gid_tbl_len(&mut self, gid_tbl_len: u32) -> (r: &mut Self)
        ensures
            r@ == (PortModel { gid_tbl_len: gid_tbl_len, ..old(self)@ }),
            *final(self) == *final(r),
    {
        self.gid_tbl_len = gid_tbl_len;
        self
    }

    /// Sets the core capability flags.
    pub fn set_core_cap_flags(&mut self, core_cap_flags: u32) -> (r: &mut Self)
        ensures
            r@ == (PortModel { core_cap_flags: core_cap_flags, ..old(self)@ }),
            *final(self) == *final(r),
    {
        self.core_cap_flags = core_cap_flags;
        self
    }

    /// Sets the maximum MAD size.
    pub fn set_max_mad_size(&mut self, max_mad_size: u32) -> (r: &mut Self)
        ensures
            r@ == (PortModel { max_mad_size: max_mad_size, ..old(self)@ }),
            *final(self) == *final(r),
    {
        self.max_mad_size = max_mad_size;
        self
    }

    /// Whether no GID entry of this port has the virtual or the real address of `gid`.
    pub fn is_gid_unique(&self, gid: Virt<GidEntry>) -> (r: bool)
        ensures
            r == gid_unique_in(self@.gids, gid),
    {
        let mut i: usize = 0;
        while i < self.gid.len()
            invariant
                i <= self.gid@.len(),
                forall|j: int|
                    0 <= j < i ==> (#[trigger] self.gid@[j]).virt.gid != gid.virt.gid
                        && self.gid@[j].real.gid != gid.real.gid,
            decreases self.gid@.len() - i,
        {
            let e = self.gid[i];
            if e.virt.is_same_addr(&gid.virt) || e.real.is_same_addr(&gid.real) {
                return false;
            }
            i = i + 1;
        }
        true
    }

    /// Adds a GID translation. Refused (`GidConflict`) where an entry already has
    /// its virtual or its real address, or where the GID table is full.
    pub fn add_gid(&mut self, gid: Virt<GidEntry>) -> (r: Result<(), CoordinatorRestError>)
        ensures
            r is Ok <==> gid_unique_in(old(self)@.gids, gid) && old(self)@.gids.len()
                < old(self)@.gid_tbl_len,
            r is Ok ==> final(self)@ == (PortModel { gids: old(self)@.gids.push(gid), ..old(self)@ }),
            r is Err ==> r == Err::<(), CoordinatorRestError>(CoordinatorRestError::GidConflict)
                && final(self)@ == old(self)@,
    {
        if !self.is_gid_unique(gid) {
            return Err(CoordinatorRestError::GidConflict);
        }
        if self.gid.len() >= self.gid_tbl_len as usize {
            return Err(CoordinatorRestError::GidConflict);
        }
        self.gid.push(gid);
        Ok(())
    }

    /// The real and virtual id of this port.
    pub fn port_id(&self) -> (r: Virt<u16>)
        ensures
            r == self@.id,
    {
        self.id
    }

    /// The length of the GID table of this port.
    pub fn gid_table_len(&self) -> (r: u32)
        ensures
            r == self@.gid_tbl_len,
    {
        self.gid_tbl_len
    }

    /// The real and virtual LID of this port, once set.
    pub fn port_lid(&self) -> (r: Option<Virt<u32>>)
        ensures
            r == self@.lid,
    {
        self.lid
    }

    /// Sets the real and virtual LID of this port.
    pub fn set_lid(&mut self, lid: Virt<u32>)
        ensures
            final(self)@ == (PortModel { lid: Some(lid), ..old(self)@ }),
    {
        self.lid = Some(lid);
    }

    /// The GID translations of this port, in the order they were added.
    pub fn iter_gid(&self) -> (r: &[Virt<GidEntry>])
        ensures
            r@ == self@.gids,
    {
        self.gid.as_slice()
    }

    /// The GID translations of this port, to be changed in place (but not added
    /// or removed).
    pub fn iter_gid_mut(&mut self) -> (r: &mut [Virt<GidEntry>])
        ensures
            r@ == old(self)@.gids,
            final(self)@ == (PortModel { gids: final(r)@, ..old(self)@ }),
    {
        self.gid.as_mut_slice()
    }

    /// The position of the first GID translation whose virtual side is `virt`.
    pub fn find_gid_by_virt(&self, virt: GidEntry) -> (r: Option<usize>)
        ensures
            match r {
                Some(k) => gid_virt_index(self@.gids, virt) == Some(k as int),
                None => gid_virt_index(self@.gids, virt) is None,
            },
    {
        let mut i: usize = 0;
        while i < self.gid.len()
            invariant
                i <= self.gid@.len(),
                forall|j: int| 0 <= j < i ==> (#[trigger] self.gid@[j]).virt != virt,
            decreases self.gid@.len() - i,
        {
            if self.gid[i].virt == virt {
                proof {
                    lemma_first_index_is(self@.gids, |e: Virt<GidEntry>| e.virt == virt, i as int);
                }
                return Some(i);
            }
            i = i + 1;
        }
        proof {
            lemma_first_index_none(self@.gids, |e: Virt<GidEntry>| e.virt == virt);
        }
        None
    }

    /// Replaces the real side of the GID translation at position `i`.
    pub fn set_gid_real(&mut self, i: usize, real_entry: GidEntry)
        requires
            i < old(self)@.gids.len(),
        ensures
            final(self)@ == (PortModel {
                gids: old(self)@.gids.update(
                    i as int,
                    Virt { real: real_entry, virt: old(self)@.gids[i as int].virt },
                ),
                ..old(self)@
            }),
    {
        let virt = self.gid[i].virt;
        self.gid.set(i, Virt { real: real_entry, virt: virt });
    }
}

/// A QP of a virtualised device: its real and its virtual number.
#[derive(Debug, Clone, Copy, PartialEq, Eq, Structural)]
pub struct QpEntry {
    pub qpn: Virt<u32>,
}

/// What the coordinator knows of a device.
pub ghost struct DeviceModel {
    pub device: u128,
    pub guid: Option<Virt<u64>>,
    pub ports: Seq<PortModel>,
    pub qps: Seq<Virt<u32>>,
}

/// A virtualised device (identified by its UUID as a number).
#[derive(Debug)]
pub struct DeviceEntry {
    pub device: u128,
    pub guid: Option<Virt<u64>>,
    ports: Vec<PortEntry>,
    qps: Vec<QpEntry>,
    pub lease: Instant,
}

impl View for DeviceEntry {
    type V = DeviceModel;

    closed spec fn view(&self) -> DeviceModel {
        DeviceModel {
            device: self.device,
            guid: self.guid,
            ports: self.ports@.map_values(|p: PortEntry| p@),
            qps: self.qps@.map_values(|q: QpEntry| q.qpn),
        }
    }
}

/// A device as it is registered: no GUID, no ports and no QPs.
pub open spec fn new_device_model(device: u128) -> DeviceModel {
    DeviceModel { device: device, guid: None, ports: Seq::empty(), qps: Seq::empty() }
}

/// No port of the device has an entry with the virtual or the real address of `g`.
pub open spec fn device_gid_unique(d: DeviceModel, g: Virt<GidEntry>) -> bool {
    forall|i: int| 0 <= i < d.ports.len() ==> gid_unique_in(#[trigger] d.ports[i].gids, g)
}

impl DeviceEntry {
    /// The time at which the device's lease was last renewed.
    pub closed spec fn lease_time(&self) -> Instant {
        self.lease
    }

    /// A newly seen device, leased now.
    pub fn new(device: u128) -> (r: Self)
        ensures
            r@ == new_device_model(device),
    {
        let r = DeviceEntry {
            device: device,
            lease: instant_now(),
            guid: None,
            ports: Vec::new(),
            qps: Vec::new(),
        };
        assert(r@.ports =~= Seq::<PortModel>::empty());
        assert(r@.qps =~= Seq::<Virt<u32>>::empty());
        r
    }

    /// Whether no port of this device has an entry with the virtual or the real
    /// address of `gid`.
    pub fn is_gid_unique(&self, gid: Virt<GidEntry>) -> (r: bool)
        ensures
            r == device_gid_unique(self@, gid),
    {
        let mut i: usize = 0;
        while i < self.ports.len()
            invariant
                i <= self.ports@.len(),
                forall|j: int| 0 <= j < i ==> gid_unique_in(#[trigger] self@.ports[j].gids, gid),
            decreases self.ports@.len() - i,
        {
            if !self.ports[i].is_gid_unique(gid) {
                assert(!gid_unique_in(self@.ports[i as int].gids, gid));
                return false;
            }
            i = i + 1;
        }
        true
    }

    /// The UUID of this device.
    pub fn uuid(&self) -> (r: u128)
        ensures
            r == self@.device,
    {
        self.device
    }

    /// The real and virtual GUID of this device, once leased.
    pub fn device_guid(&self) -> (r: Option<Virt<u64>>)
        ensures
            r == self@.guid,
    {
        self.guid
    }

    /// Renews the lease of this device.
    pub fn renew_lease(&mut self, now: Instant)
        ensures
            final(self)@ == old(self)@,
            final(self).lease_time() == now,
    {
        self.lease = now;
    }

    /// Sets the real and virtual GUID of the device.
    pub fn set_guid(&mut self, guid: Virt<u64>) -> (r: &mut Self)
        ensures
            r@ == (DeviceModel { guid: Some(guid), ..old(self)@ }),
            *final(self) == *final(r),
    {
        self.guid = Some(guid);
        self
    }

    /// The port with the virtual id `port_id`; port ids count from 1.
    pub fn get_port_mut(&mut self, port_id: u16) -> (r: Option<&mut PortEntry>)
        requires
            port_id >= 1,
        ensures
            port_id - 1 < old(self)@.ports.len() ==> r is Some && r.unwrap()@ == old(self)@.ports[port_id
                - 1] && final(self)@ == (DeviceModel {
                ports: old(self)@.ports.update(port_id - 1, final(r.unwrap())@),
                ..old(self)@
            }),
            port_id - 1 >= old(self)@.ports.len() ==> r is None && final(self)@ == old(self)@,
    {
        let i = (port_id - 1) as usize;
        if i < self.ports.len() {
            broadcast use lemma_map_values_update;

            let r = &mut self.ports[i];
            Some(r)
        } else {
            None
        }
    }

    /// Registers a port with the real id `real_port`; its virtual id is the next
    /// free one (ports count from 1).
    pub fn add_port(&mut self, real_port: u16) -> (r: &mut PortEntry)
        requires
            old(self)@.ports.len() < 65535,
        ensures
            r@ == new_port_model(Virt { real: real_port, virt: (old(self)@.ports.len() + 1) as u16 }),
            final(self)@ == (DeviceModel {
                ports: old(self)@.ports.push(final(r)@),
                ..old(self)@
            }),
    {
        let virt_id = (self.ports.len() + 1) as u16;
        let port = PortEntry::new(Virt::new(real_port, virt_id));
        let n = self.ports.len();
        self.ports.push(port);
        broadcast use {lemma_map_values_update, lemma_map_values_push, lemma_push_update_last};

        let r = &mut self.ports[n];
        r
    }

    /// The ports of this device, in the order of their virtual ids.
    pub fn iter_port(&self) -> (r: &[PortEntry])
        ensures
            r@.map_values(|p: PortEntry| p@) == self@.ports,
    {
        self.ports.as_slice()
    }

    /// Registers a QP translation.
    pub fn add_qp(&mut self, qpn: Virt<u32>) -> (r: &mut QpEntry)
        ensures
            r.qpn == qpn,
            final(self)@ == (DeviceModel { qps: old(self)@.qps.push(final(r).qpn), ..old(self)@ }),
    {
        let n = self.qps.len();
        self.qps.push(QpEntry { qpn: qpn });
        broadcast use {lemma_map_values_update, lemma_map_values_push, lemma_push_update_last};

        let r = &mut self.qps[n];
        r
    }

    /// The QPs of this device, in the order they were registered.
    pub fn iter_qps(&self) -> (r: &[QpEntry])
        ensures
            r@.map_values(|q: QpEntry| q.qpn) == self@.qps,
    {
        self.qps.as_slice()
    }
}

/// The first position of `s` whose element satisfies `p`, if any.
pub open spec fn first_index<A>(s: Seq<A>, p: spec_fn(A) -> bool) -> Option<int> {
    if exists|i: int| 0 <= i < s.len() && p(s[i]) {
        Some(
            choose|i: int|
                0 <= i < s.len() && p(s[i]) && forall|j: int| 0 <= j < i ==> !p(#[trigger] s[j]),
        )
    } else {
        None
    }
}

/// `i` is the first position whose element satisfies `p`.
pub proof fn lemma_first_index_is<A>(s: Seq<A>, p: spec_fn(A) -> bool, i: int)
    requires
        0 <= i < s.len(),
        p(s[i]),
        forall|j: int| 0 <= j < i ==> !p(#[trigger] s[j]),
    ensures
        first_index(s, p) == Some(i),
{
    let k = choose|k: int|
        0 <= k < s.len() && p(s[k]) && forall|j: int| 0 <= j < k ==> !p(#[trigger] s[j]);
    assert(0 <= k < s.len() && p(s[k]) && forall|j: int| 0 <= j < k ==> !p(#[trigger] s[j]));
    if k < i {
        assert(!p(s[k]));
    }
    if k > i {
        assert(!p(s[i]));
    }
}

/// No element satisfies `p`.
pub proof fn lemma_first_index_none<A>(s: Seq<A>, p: spec_fn(A) -> bool)
    requires
        forall|j: int| 0 <= j < s.len() ==> !p(#[trigger] s[j]),
    ensures
        first_index(s, p) is None,
{
}

/// What `first_index` returns when it returns a position.
pub proof fn lemma_first_index_some<A>(s: Seq<A>, p: spec_fn(A) -> bool)
    requires
        first_index(s, p) is Some,
    ensures
        0 <= first_index(s, p)->0 < s.len(),
        p(s[first_index(s, p)->0]),
        forall|j: int| 0 <= j < first_index(s, p)->0 ==> !p(#[trigger] s[j]),
{
    let i = choose|i: int| 0 <= i < s.len() && p(s[i]);
    let k = choose|k: int|
        0 <= k < s.len() && p(s[k]) && forall|j: int| 0 <= j < k ==> !p(#[trigger] s[j]);
    lemma_has_first(s, p, i);
}

/// Appending an element that satisfies `p` to a sequence where none does makes
/// it the first.
pub proof fn lemma_first_index_push<A>(s: Seq<A>, p: spec_fn(A) -> bool, a: A)
    requires
        first_index(s, p) is None,
        p(a),
    ensures
        first_index(s.push(a), p) == Some(s.len() as int),
{
    let t = s.push(a);
    assert forall|j: int| 0 <= j < s.len() implies !p(#[trigger] t[j]) by {
        assert(t[j] == s[j]);
        if p(s[j]) {
            lemma_has_first(s, p, j);
        }
    }
    lemma_first_index_is(t, p, s.len() as int);
}

/// Replacing the first element that satisfies `p` by another that does keeps
/// its position the first.
pub proof fn lemma_first_index_update<A>(s: Seq<A>, p: spec_fn(A) -> bool, i: int, a: A)
    requires
        first_index(s, p) == Some(i),
        p(a),
    ensures
        first_index(s.update(i, a), p) == Some(i),
{
    lemma_first_index_some(s, p);
    let t = s.update(i, a);
    assert forall|j: int| 0 <= j < i implies !p(#[trigger] t[j]) by {
        assert(t[j] == s[j]);
    }
    lemma_first_index_is(t, p, i);
}

/// Where some element satisfies `p`, a first one does.
proof fn lemma_has_first<A>(s: Seq<A>, p: spec_fn(A) -> bool, i: int)
    requires
        0 <= i < s.len(),
        p(s[i]),
    ensures
        exists|k: int|
            0 <= k < s.len() && p(s[k]) && forall|j: int| 0 <= j < k ==> !p(#[trigger] s[j]),
    decreases i,
{
    if exists|j: int| 0 <= j < i && p(s[j]) {
        let j = choose|j: int| 0 <= j < i && p(s[j]);
        lemma_has_first(s, p, j);
    } else {
        assert(forall|j: int| 0 <= j < i ==> !p(#[trigger] s[j]));
    }
}

/// The position of the first GID translation whose virtual side is `virt`.
pub open spec fn gid_virt_index(gids: Seq<Virt<GidEntry>>, virt: GidEntry) -> Option<int> {
    first_index(gids, |e: Virt<GidEntry>| e.virt == virt)
}

/// The position of the device `d` in a network: the first entry with that UUID.
pub open spec fn device_index(devs: Seq<DeviceModel>, d: u128) -> Option<int> {
    first_index(devs, |m: DeviceModel| m.device == d)
}

/// The devices of a network, in the order they were first seen.
#[derive(Debug)]
pub struct DeviceTable(Vec<DeviceEntry>);

impl View for DeviceTable {
    type V = Seq<DeviceModel>;

    closed spec fn view(&self) -> Seq<DeviceModel> {
        self.0@.map_values(|d: DeviceEntry| d@)
    }
}

impl DeviceTable {
    /// The time at which the lease of each device was last renewed, in the order
    /// of the devices.
    pub closed spec fn lease_times(&self) -> Seq<Instant> {
        self.0@.map_values(|d: DeviceEntry| d.lease_time())
    }

    /// There is one lease time for each device.
    pub proof fn lemma_lease_times_len(&self)
        ensures
            self.lease_times().len() == self@.len(),
    {
    }

    /// An empty table.
    pub fn new() -> (r: Self)
        ensures
            r@ == Seq::<DeviceModel>::empty(),
            r.lease_times() == Seq::<Instant>::empty(),
    {
        let r = DeviceTable(Vec::new());
        assert(r@ =~= Seq::<DeviceModel>::empty());
        assert(r.lease_times() =~= Seq::<Instant>::empty());
        r
    }

    /// The position of the device `dev`: the first entry with that UUID.
    pub fn position(&self, dev: u128) -> (r: Option<usize>)
        ensures
            match r {
                Some(i) => device_index(self@, dev) == Some(i as int),
                None => device_index(self@, dev) is None,
            },
    {
        let mut i: usize = 0;
        while i < self.0.len()
            invariant
                i <= self.0@.len(),
                forall|j: int| 0 <= j < i ==> (#[trigger] self@[j]).device != dev,
            decreases self.0@.len() - i,
        {
            if self.0[i].device == dev {
                proof {
                    lemma_first_index_is(self@, |m: DeviceModel| m.device == dev, i as int);
                }
                return Some(i);
            }
            i = i + 1;
        }
        proof {
            lemma_first_index_none(self@, |m: DeviceModel| m.device == dev);
        }
        None
    }

    /// The entry of the device `dev`: the first entry with that UUID.
    pub fn by_device(&mut self, dev: u128) -> (r: Option<&mut DeviceEntry>)
        ensures
            match device_index(old(self)@, dev) {
                Some(i) => r is Some && r.unwrap()@ == old(self)@[i] && final(self)@ == old(
                    self,
                )@.update(i, final(r.unwrap())@) && final(self).lease_times() == old(
                    self,
                ).lease_times().update(i, final(r.unwrap()).lease_time()),
                None => r is None && final(self)@ == old(self)@ && final(self).lease_times() == old(
                    self,
                ).lease_times(),
            },
    {
        broadcast use lemma_map_values_update;

        match self.position(dev) {
            Some(i) => {
                proof {
                    lemma_first_index_some(self@, |m: DeviceModel| m.device == dev);
                }
                Some(&mut self.0[i])
            },
            None => None,
        }
    }

    /// Appends a device.
    pub fn insert(&mut self, entry: DeviceEntry)
        ensures
            final(self)@ == old(self)@.push(entry@),
            final(self).lease_times() == old(self).lease_times().push(entry.lease_time()),
    {
        broadcast use lemma_map_values_push;

        self.0.push(entry);
    }

    /// The devices, in the order they were added.
    pub fn iter(&self) -> (r: &[DeviceEntry])
        ensures
            r@.map_values(|d: DeviceEntry| d@) == self@,
    {
        self.0.as_slice()
    }
}

/// No device of the network has a port entry with the virtual or the real
/// address of `g`.
pub open spec fn network_gid_unique(devs: Seq<DeviceModel>, g: Virt<GidEntry>) -> bool {
    forall|i: int| 0 <= i < devs.len() ==> device_gid_unique(#[trigger] devs[i], g)
}

/// What the coordinator knows of one virtual network.
pub struct NetworkState {
    pub devices: DeviceTable,
}

impl View for NetworkState {
    type V = Seq<DeviceModel>;

    open spec fn view(&self) -> Seq<DeviceModel> {
        self.devices@
    }
}

impl NetworkState {
    /// A network without devices.
    pub fn new() -> (r: Self)
        ensures
            r@ == Seq::<DeviceModel>::empty(),
            r.devices.lease_times() == Seq::<Instant>::empty(),
    {
        NetworkState { devices: DeviceTable::new() }
    }

    /// Whether no device of the network has a port entry with the virtual or the
    /// real address of `gid`.
    pub fn is_gid_unique(&self, gid: Virt<GidEntry>) -> (r: bool)
        ensures
            r == network_gid_unique(self@, gid),
    {
        let devs = self.devices.iter();
        let mut i: usize = 0;
        while i < devs.len()
            invariant
                i <= devs@.len(),
                devs@.map_values(|d: DeviceEntry| d@) == self@,
                forall|j: int| 0 <= j < i ==> device_gid_unique(#[trigger] self@[j], gid),
            decreases devs@.len() - i,
        {
            if !devs[i].is_gid_unique(gid) {
                assert(!device_gid_unique(self@[i as int], gid));
                return false;
            }
            i = i + 1;
        }
        true
    }
}

/// The coordinator's state: the networks by UUID.
pub struct CoordState {
    networks: HashMap<u128, NetworkState>,
}

impl View for CoordState {
    type V = Map<u128, Seq<DeviceModel>>;

    closed spec fn view(&self) -> Map<u128, Seq<DeviceModel>> {
        self.networks@.map_values(|n: NetworkState| n@)
    }
}

impl CoordState {
    /// The lease times of the devices of each network, in the order of the
    /// devices.
    pub closed spec fn lease_times(&self) -> Map<u128, Seq<Instant>> {
        self.networks@.map_values(|n: NetworkState| n.devices.lease_times())
    }

    /// Takes the state of the network `network` out, if the network is known.
    pub fn take_network(&mut self, network: u128) -> (r: Option<NetworkState>)
        ensures
            final(self)@ == old(self)@.remove(network),
            final(self).lease_times() == old(self).lease_times().remove(network),
            match r {
                Some(n) => old(self)@.contains_key(network) && n@ == old(self)@[network]
                    && n.devices.lease_times() == old(self).lease_times()[network],
                None => !old(self)@.contains_key(network),
            },
    {
        let r = self.networks.remove(&network);
        assert(self@ =~= old(self)@.remove(network));
        assert(self.lease_times() =~= old(self).lease_times().remove(network));
        r
    }

    /// Stores the state of the network `network`.
    pub fn put_network(&mut self, network: u128, state: NetworkState)
        ensures
            final(self)@ == old(self)@.insert(network, state@),
            final(self).lease_times() == old(self).lease_times().insert(
                network,
                state.devices.lease_times(),
            ),
    {
        let ghost v = state@;
        let ghost t = state.devices.lease_times();
        self.networks.insert(network, state);
        assert(self@ =~= old(self)@.insert(network, v));
        assert(self.lease_times() =~= old(self).lease_times().insert(network, t));
    }

    /// The state of the network `network`, if the network is known.
    pub fn network(&self, network: u128) -> (r: Option<&NetworkState>)
        ensures
            match r {
                Some(n) => self@.contains_key(network) && n@ == self@[network],
                None => !self@.contains_key(network),
            },
    {
        self.networks.get(&network)
    }

    /// A coordinator that knows no network.
    pub fn new() -> (r: Self)
        ensures
            r@ == Map::<u128, Seq<DeviceModel>>::empty(),
    {
        let r = CoordState { networks: HashMap::new() };
        assert(r@ =~= Map::<u128, Seq<DeviceModel>>::empty());
        r
    }
}

} // verus!
