//! The coordinator's registry of devices (kept in memory) and the service
//! layer on top of it.

use vstd::prelude::*;
use vstd::string::StringExecFns;
use crate::coordinator::errors::{CoordinatorRestError, ErrorModel, error_model};
use crate::coordinator::data::{
    VirtDeviceModel, DeviceDtoModel, VirtualizedDevice, VirtualizedDeviceInput, VirtualizedDeviceDTO,
    InitDataConfiguration, DeviceInputModel, dto_of, device_of_input, input_guids_valid,
};
use crate::coordinator::state::{
    first_index, lemma_first_index_is, lemma_first_index_none, lemma_first_index_some,
    lemma_first_index_push, lemma_first_index_update,
};
use crate::urls::{uuid_text, uuid_to_string};

verus! {

/// The results of the service layer with their texts as character sequences.
pub open spec fn err_view<T>(r: Result<T, CoordinatorRestError>) -> Result<T, ErrorModel> {
    match r {
        Ok(t) => Ok(t),
        Err(e) => Err(error_model(e)),
    }
}

/// The view of a result that gives a device.
pub open spec fn dto_view(r: Result<VirtualizedDeviceDTO, CoordinatorRestError>) -> Result<
    DeviceDtoModel,
    ErrorModel,
> {
    match r {
        Ok(d) => Ok(d@),
        Err(e) => Err(error_model(e)),
    }
}

/// Whether the configuration allows the device with the virtual GUID text `dev`
/// in `network`: `Ok` where it does, otherwise why not.
pub open spec fn allowed_model(cfg: Map<u128, Seq<Seq<char>>>, network: u128, dev: Seq<char>) -> Result<
    (),
    ErrorModel,
> {
    if !cfg.contains_key(network) {
        Err(ErrorModel::VirtNetworkNotSupported(network))
    } else if cfg[network].contains(dev) {
        Ok(())
    } else {
        Err(ErrorModel::VirtDeviceGuidNotSupported(network, dev))
    }
}

/// Checks against the coordinator config if the specified device is allowed inside the specified network.
/// (if this coordinator is responsible for them)
pub fn check_device_is_allowed(cfg: &InitDataConfiguration, network_id: u128, device_id: &str) -> (r: Result<(), CoordinatorRestError>)
    ensures
        err_view(r) == allowed_model(cfg@, network_id, device_id@),
{
    let devs = match cfg.devices_of(network_id) {
        Some(d) => d,
        None => {
            return Err(CoordinatorRestError::VirtNetworkNotSupported(network_id));
        },
    };
    let key = device_id.to_string();
    let ghost dv = cfg@[network_id];
    let mut i: usize = 0;
    while i < devs.len()
        invariant
            i <= devs@.len(),
            dv == devs@.map_values(|s: String| s@),
            key@ == device_id@,
            cfg@.contains_key(network_id),
            dv == cfg@[network_id],
            forall|j: int| 0 <= j < i ==> dv[j] != device_id@,
        decreases devs@.len() - i,
    {
        assert(dv[i as int] == devs@[i as int]@);
        if devs[i] == key {
            assert(dv[i as int] == device_id@);
            assert(dv.contains(device_id@));
            return Ok(());
        }
        i = i + 1;
    }
    assert(!dv.contains(device_id@));
    Err(CoordinatorRestError::VirtDeviceGuidNotSupported(network_id, key))
}

/// The registry: for every network, its devices with the virtual GUID text
/// they were registered under, in the order they were added.
pub type DbModel = Seq<(u128, Seq<(Seq<char>, VirtDeviceModel)>)>;

/// A registered device under its key.
pub struct DbEntry {
    key: String,
    device: VirtualizedDevice,
}

/// The devices of one network.
pub struct DbNetwork {
    id: u128,
    devices: Vec<DbEntry>,
}

/// The registry of devices, by network.
pub struct Db {
    networks: Vec<DbNetwork>,
}

/// The entries of one network.
spec fn entries_view(v: Seq<DbEntry>) -> Seq<(Seq<char>, VirtDeviceModel)> {
    v.map_values(|e: DbEntry| (e.key@, e.device@))
}

/// The view of one network.
spec fn network_view(n: DbNetwork) -> (u128, Seq<(Seq<char>, VirtDeviceModel)>) {
    (n.id, entries_view(n.devices@))
}

impl View for Db {
    type V = DbModel;

    closed spec fn view(&self) -> DbModel {
        self.networks@.map_values(|n: DbNetwork| network_view(n))
    }
}

/// The position of the network `n`.
pub open spec fn net_pos(db: DbModel, n: u128) -> Option<int> {
    first_index(db, |x: (u128, Seq<(Seq<char>, VirtDeviceModel)>)| x.0 == n)
}

/// The position of the device registered under `k`.
pub open spec fn dev_pos(devs: Seq<(Seq<char>, VirtDeviceModel)>, k: Seq<char>) -> Option<int> {
    first_index(devs, |x: (Seq<char>, VirtDeviceModel)| x.0 == k)
}

/// The answers for the devices of a network.
pub open spec fn dtos_of(devs: Seq<(Seq<char>, VirtDeviceModel)>) -> Seq<DeviceDtoModel> {
    devs.map_values(|x: (Seq<char>, VirtDeviceModel)| dto_of(x.1))
}

/// The answers for a list of DTOs.
pub open spec fn dtos_view(v: Seq<VirtualizedDeviceDTO>) -> Seq<DeviceDtoModel> {
    v.map_values(|d: VirtualizedDeviceDTO| d@)
}

/// Asking for the devices of network `n`.
pub open spec fn get_network_model(db: DbModel, n: u128) -> Result<Seq<DeviceDtoModel>, ErrorModel> {
    match net_pos(db, n) {
        None => Err(ErrorModel::VirtNetworkNotSupported(n)),
        Some(i) => Ok(dtos_of(db[i].1)),
    }
}

/// Asking for the device registered under `k` in network `n`.
pub open spec fn get_device_model(db: DbModel, n: u128, k: Seq<char>) -> Result<DeviceDtoModel, ErrorModel> {
    match net_pos(db, n) {
        None => Err(ErrorModel::VirtNetworkNotSupported(n)),
        Some(i) => match dev_pos(db[i].1, k) {
            None => Err(ErrorModel::VirtDeviceNotYetRegistered(n, k)),
            Some(j) => Ok(dto_of(db[i].1[j].1)),
        },
    }
}

/// The text of the refusal to register a network twice.
pub open spec fn network_exists_message(n: u128) -> Seq<char> {
    "Network with id "@ + uuid_text(n) + " already exists!"@
}

/// Registering network `n`: refused where it is registered already.
pub open spec fn register_network_model(db: DbModel, n: u128) -> (DbModel, Result<(), Seq<char>>) {
    match net_pos(db, n) {
        Some(_) => (db, Err(network_exists_message(n))),
        None => (db.push((n, Seq::empty())), Ok(())),
    }
}

/// Registering the device of `i` in network `n`: it must be allowed by the
/// configuration, the network must be registered and no device may be
/// registered under its virtual GUID text yet.
pub open spec fn add_device_model(db: DbModel, cfg: Map<u128, Seq<Seq<char>>>, n: u128, i: DeviceInputModel) -> (
    DbModel,
    Result<DeviceDtoModel, ErrorModel>,
) {
    let k = i.virtual_device_guid_string;
    match allowed_model(cfg, n, k) {
        Err(e) => (db, Err(e)),
        Ok(_) => match net_pos(db, n) {
            None => (db, Err(ErrorModel::VirtNetworkNotSupported(n))),
            Some(p) => match dev_pos(db[p].1, k) {
                Some(_) => (db, Err(ErrorModel::VirtDeviceAlreadyRegistered(n, k))),
                None => (
                    db.update(p, (n, db[p].1.push((k, device_of_input(i))))),
                    Ok(dto_of(device_of_input(i))),
                ),
            },
        },
    }
}

/// Whether registering the device of `i` reaches the point where the device is
/// created from its GUID strings.
pub open spec fn add_device_inserts(db: DbModel, cfg: Map<u128, Seq<Seq<char>>>, n: u128, i: DeviceInputModel) -> bool {
    &&& allowed_model(cfg, n, i.virtual_device_guid_string) is Ok
    &&& net_pos(db, n) matches Some(p) && dev_pos(db[p].1, i.virtual_device_guid_string) is None
}

/// Removing the device registered under `k` from network `n`.
pub open spec fn delete_device_model(db: DbModel, n: u128, k: Seq<char>) -> (DbModel, Result<DeviceDtoModel, ErrorModel>) {
    match net_pos(db, n) {
        None => (db, Err(ErrorModel::VirtNetworkNotSupported(n))),
        Some(p) => match dev_pos(db[p].1, k) {
            None => (db, Err(ErrorModel::VirtDeviceNotYetRegistered(n, k))),
            Some(j) => (db.update(p, (n, db[p].1.remove(j))), Ok(dto_of(db[p].1[j].1))),
        },
    }
}

/// The answers for the devices of one network.
fn network_dtos(devices: &Vec<DbEntry>) -> (r: Vec<VirtualizedDeviceDTO>)
    ensures
        dtos_view(r@) == dtos_of(entries_view(devices@)),
{
    let mut out: Vec<VirtualizedDeviceDTO> = Vec::new();
    let mut i: usize = 0;
    while i < devices.len()
        invariant
            i <= devices@.len(),
            out@.len() == i,
            forall|k: int| 0 <= k < i ==> (#[trigger] out@[k])@ == dto_of(devices@[k].device@),
        decreases devices@.len() - i,
    {
        let d = VirtualizedDeviceDTO::new(&devices[i].device);
        out.push(d);
        i = i + 1;
    }
    assert(dtos_view(out@) =~= dtos_of(entries_view(devices@)));
    out
}

/// The position of the device registered under `key`.
fn find_device(devices: &Vec<DbEntry>, key: &String) -> (r: Option<usize>)
    ensures
        r matches Some(j) ==> j < devices@.len(),
        match r {
            Some(j) => dev_pos(entries_view(devices@), key@) == Some(j as int),
            None => dev_pos(entries_view(devices@), key@) is None,
        },
{
    let ghost ev = entries_view(devices@);
    let mut j: usize = 0;
    while j < devices.len()
        invariant
            j <= devices@.len(),
            ev == entries_view(devices@),
            forall|m: int| 0 <= m < j ==> (#[trigger] ev[m]).0 != key@,
        decreases devices@.len() - j,
    {
        assert(ev[j as int] == (devices@[j as int].key@, devices@[j as int].device@));
        if devices[j].key == *key {
            proof {
                lemma_first_index_is(ev, |x: (Seq<char>, VirtDeviceModel)| x.0 == key@, j as int);
            }
            return Some(j);
        }
        j = j + 1;
    }
    proof {
        lemma_first_index_none(ev, |x: (Seq<char>, VirtDeviceModel)| x.0 == key@);
    }
    None
}

impl Db {
    /// An empty registry.
    pub fn new() -> (r: Db)
        ensures
            r@ == Seq::<(u128, Seq<(Seq<char>, VirtDeviceModel)>)>::empty(),
            db_wf(r@),
    {
        let r = Db { networks: Vec::new() };
        assert(r@ =~= Seq::<(u128, Seq<(Seq<char>, VirtDeviceModel)>)>::empty());
        r
    }

    /// The position of the network `n`.
    fn find_network(&self, n: u128) -> (r: Option<usize>)
        ensures
            r matches Some(i) ==> i < self.networks@.len() && self@[i as int] == network_view(
                self.networks@[i as int],
            ),
            match r {
                Some(i) => net_pos(self@, n) == Some(i as int),
                None => net_pos(self@, n) is None,
            },
    {
        let mut i: usize = 0;
        while i < self.networks.len()
            invariant
                i <= self.networks@.len(),
                forall|m: int| 0 <= m < i ==> (#[trigger] self@[m]).0 != n,
            decreases self.networks@.len() - i,
        {
            assert(self@[i as int] == network_view(self.networks@[i as int]));
            if self.networks[i].id == n {
                proof {
                    lemma_first_index_is(
                        self@,
                        |x: (u128, Seq<(Seq<char>, VirtDeviceModel)>)| x.0 == n,
                        i as int,
                    );
                }
                return Some(i);
            }
            i = i + 1;
        }
        proof {
            lemma_first_index_none(self@, |x: (u128, Seq<(Seq<char>, VirtDeviceModel)>)| x.0 == n);
        }
        None
    }
}

/// Returns the whole database with all networks and their current registered devices.
pub fn db_get_all_data(db: &Db) -> (r: Vec<(u128, Vec<VirtualizedDeviceDTO>)>)
    ensures
        r@.map_values(|x: (u128, Vec<VirtualizedDeviceDTO>)| (x.0, dtos_view(x.1@))) == db@.map_values(
            |x: (u128, Seq<(Seq<char>, VirtDeviceModel)>)| (x.0, dtos_of(x.1)),
        ),
{
    let mut out: Vec<(u128, Vec<VirtualizedDeviceDTO>)> = Vec::new();
    let mut i: usize = 0;
    while i < db.networks.len()
        invariant
            i <= db.networks@.len(),
            out@.len() == i,
            forall|k: int|
                0 <= k < i ==> (#[trigger] out@[k]).0 == db@[k].0 && dtos_view(out@[k].1@) == dtos_of(
                    db@[k].1,
                ),
        decreases db.networks@.len() - i,
    {
        assert(db@[i as int] == network_view(db.networks@[i as int]));
        let dtos = network_dtos(&db.networks[i].devices);
        out.push((db.networks[i].id, dtos));
        i = i + 1;
    }
    assert(out@.map_values(|x: (u128, Vec<VirtualizedDeviceDTO>)| (x.0, dtos_view(x.1@))) =~= db@.map_values(
        |x: (u128, Seq<(Seq<char>, VirtDeviceModel)>)| (x.0, dtos_of(x.1)),
    ));
    out
}

/// Returns info about all devices in a specific network.
pub fn db_get_network_data(db: &Db, network_id: u128) -> (r: Result<Vec<VirtualizedDeviceDTO>, CoordinatorRestError>)
    ensures
        match r {
            Ok(v) => get_network_model(db@, network_id) == Ok::<Seq<DeviceDtoModel>, ErrorModel>(dtos_view(v@)),
            Err(e) => get_network_model(db@, network_id) == Err::<Seq<DeviceDtoModel>, ErrorModel>(error_model(e)),
        },
{
    match db.find_network(network_id) {
        None => Err(CoordinatorRestError::VirtNetworkNotSupported(network_id)),
        Some(i) => {
            assert(db@[i as int] == network_view(db.networks@[i as int]));
            Ok(network_dtos(&db.networks[i].devices))
        },
    }
}

/// Returns the data for a single device
pub fn db_get_device_data(db: &Db, network_id: u128, dev_id: &str) -> (r: Result<VirtualizedDeviceDTO, CoordinatorRestError>)
    ensures
        dto_view(r) == get_device_model(db@, network_id, dev_id@),
{
    let key = dev_id.to_string();
    match db.find_network(network_id) {
        None => Err(CoordinatorRestError::VirtNetworkNotSupported(network_id)),
        Some(i) => {
            assert(db@[i as int] == network_view(db.networks@[i as int]));
            let devices = &db.networks[i].devices;
            match find_device(devices, &key) {
                None => Err(CoordinatorRestError::VirtDeviceNotYetRegistered(network_id, key)),
                Some(j) => {
                    assert(entries_view(devices@)[j as int] == (devices@[j as int].key@, devices@[j as int].device@));
                    Ok(VirtualizedDeviceDTO::new(&devices[j].device))
                },
            }
        },
    }
}

/// Adds a virtual network entry to the db. This means that the coordinator can
/// manage devices of that network.
pub fn db_register_network(db: &mut Db, id: u128) -> (r: Result<(), String>)
    ensures
        ({
            let (db1, res) = register_network_model(old(db)@, id);
            &&& final(db)@ == db1
            &&& match r {
                Ok(()) => res == Ok::<(), Seq<char>>(()),
                Err(t) => res == Err::<(), Seq<char>>(t@),
            }
        }),
{
    match db.find_network(id) {
        Some(_) => {
            let mut s = String::from_str("Network with id ");
            let u = uuid_to_string(id);
            s.append(u.as_str());
            s.append(" already exists!");
            Err(s)
        },
        None => {
            let fresh = DbNetwork { id: id, devices: Vec::new() };
            assert(network_view(fresh) == (id, Seq::<(Seq<char>, VirtDeviceModel)>::empty()));
            db.networks.push(fresh);
            assert(final(db)@ =~= old(db)@.push((id, Seq::empty())));
            Ok(())
        },
    }
}

/// Assigns a virtualized rdma device to a virtualized network.
#[verifier::rlimit(40)]
pub fn db_add_device_to_network(
    db: &mut Db,
    cfg: &InitDataConfiguration,
    network_id: u128,
    dev: VirtualizedDeviceInput,
) -> (r: Result<VirtualizedDeviceDTO, CoordinatorRestError>)
    requires
        add_device_inserts(old(db)@, cfg@, network_id, dev@) ==> input_guids_valid(dev@),
    ensures
        ({
            let (db1, res) = add_device_model(old(db)@, cfg@, network_id, dev@);
            final(db)@ == db1 && dto_view(r) == res
        }),
{
    let ghost input = dev@;
    match check_device_is_allowed(cfg, network_id, dev.virtual_device_guid_string()) {
        Ok(()) => {},
        Err(e) => {
            return Err(e);
        },
    }
    let key = dev.virtual_device_guid_string().to_string();
    let i = match db.find_network(network_id) {
        None => {
            return Err(CoordinatorRestError::VirtNetworkNotSupported(network_id));
        },
        Some(i) => i,
    };
    assert(db@[i as int] == network_view(db.networks@[i as int]));
    match find_device(&db.networks[i].devices, &key) {
        Some(_) => {
            return Err(CoordinatorRestError::VirtDeviceAlreadyRegistered(network_id, key));
        },
        None => {},
    }
    let entity = VirtualizedDevice::new(dev);
    let dto = VirtualizedDeviceDTO::new(&entity);
    let ghost old_db = db@;
    let ghost model = entity@;
    let ghost old_net = db.networks@[i as int];
    proof {
        lemma_first_index_some(old_db, |x: (u128, Seq<(Seq<char>, VirtDeviceModel)>)| x.0 == network_id);
        assert(old_net.id == network_id);
    }
    let ghost old_networks = db.networks@;
    let net = &mut db.networks[i];
    net.devices.push(DbEntry { key: key, device: entity });
    proof {
        assert(final(db).networks@ == old_networks.update(i as int, *final(net)));
        assert(entries_view(final(net).devices@) =~= entries_view(old_net.devices@).push(
            (input.virtual_device_guid_string, model),
        ));
        assert(final(db)@ =~= old_db.update(
            i as int,
            (network_id, old_db[i as int].1.push((input.virtual_device_guid_string, model))),
        ));
    }
    Ok(dto)
}

/// Returns the old device as DTO on success, otherwise error.
#[verifier::rlimit(40)]
pub fn db_delete_device_from_network(db: &mut Db, network_id: u128, dev_id: &str) -> (r: Result<VirtualizedDeviceDTO, CoordinatorRestError>)
    ensures
        ({
            let (db1, res) = delete_device_model(old(db)@, network_id, dev_id@);
            final(db)@ == db1 && dto_view(r) == res
        }),
{
    let key = dev_id.to_string();
    let i = match db.find_network(network_id) {
        None => {
            return Err(CoordinatorRestError::VirtNetworkNotSupported(network_id));
        },
        Some(i) => i,
    };
    assert(db@[i as int] == network_view(db.networks@[i as int]));
    let j = match find_device(&db.networks[i].devices, &key) {
        None => {
            return Err(CoordinatorRestError::VirtDeviceNotYetRegistered(network_id, key));
        },
        Some(j) => j,
    };
    let ghost old_db = db@;
    let ghost old_net = db.networks@[i as int];
    proof {
        lemma_first_index_some(old_db, |x: (u128, Seq<(Seq<char>, VirtDeviceModel)>)| x.0 == network_id);
        assert(old_net.id == network_id);
    }
    let ghost old_networks = db.networks@;
    let net = &mut db.networks[i];
    let entry = net.devices.remove(j);
    proof {
        assert(final(db).networks@ == old_networks.update(i as int, *final(net)));
        assert(entries_view(final(net).devices@) =~= entries_view(old_net.devices@).remove(j as int));
        assert(final(db)@ =~= old_db.update(i as int, (network_id, old_db[i as int].1.remove(j as int))));
    }
    Ok(VirtualizedDeviceDTO::new(&entry.device))
}

/// No key occurs twice among the devices of a network.
pub open spec fn keys_unique(devs: Seq<(Seq<char>, VirtDeviceModel)>) -> bool {
    forall|a: int, b: int| 0 <= a < b < devs.len() ==> (#[trigger] devs[a]).0 != (#[trigger] devs[b]).0
}

/// The registry is well formed: no network occurs twice, and within each network
/// no virtual GUID text keys two devices (as in a map by network and by key).
pub open spec fn db_wf(db: DbModel) -> bool {
    &&& forall|a: int, b: int| 0 <= a < b < db.len() ==> (#[trigger] db[a]).0 != (#[trigger] db[b]).0
    &&& forall|p: int| 0 <= p < db.len() ==> keys_unique(#[trigger] db[p].1)
}

/// Registering a network, registering a device and removing a device keep the
/// registry well formed, whatever they answer.
pub proof fn law_db_keeps_keys_unique(
    db: DbModel,
    cfg: Map<u128, Seq<Seq<char>>>,
    n: u128,
    i: DeviceInputModel,
    k: Seq<char>,
)
    requires
        db_wf(db),
    ensures
        db_wf(register_network_model(db, n).0),
        db_wf(add_device_model(db, cfg, n, i).0),
        db_wf(delete_device_model(db, n, k).0),
{
    if net_pos(db, n) is None {
        let d1 = register_network_model(db, n).0;
        assert(d1 == db.push((n, Seq::<(Seq<char>, VirtDeviceModel)>::empty())));
        assert forall|a: int, b: int| 0 <= a < b < d1.len() implies (#[trigger] d1[a]).0 != (#[trigger] d1[b]).0 by {
            if b == db.len() {
                assert(d1[a] == db[a]);
                if db[a].0 == n {
                    assert(exists|j: int| 0 <= j < db.len() && (|x: (u128, Seq<(Seq<char>, VirtDeviceModel)>)| x.0 == n)(db[j]));
                }
            }
        }
        assert forall|p: int| 0 <= p < d1.len() implies keys_unique(#[trigger] d1[p].1) by {
            if p < db.len() {
                assert(d1[p] == db[p]);
            }
        }
    }
    if net_pos(db, n) is Some {
        let p = net_pos(db, n)->0;
        lemma_first_index_some(db, |x: (u128, Seq<(Seq<char>, VirtDeviceModel)>)| x.0 == n);
        let devs = db[p].1;
        let key = i.virtual_device_guid_string;
        if dev_pos(devs, key) is None && allowed_model(cfg, n, key) is Ok {
            let d2 = add_device_model(db, cfg, n, i).0;
            let nd = devs.push((key, device_of_input(i)));
            assert(d2 == db.update(p, (n, nd)));
            assert(keys_unique(nd)) by {
                assert forall|a: int, b: int| 0 <= a < b < nd.len() implies (#[trigger] nd[a]).0 != (#[trigger] nd[b]).0 by {
                    if b == devs.len() {
                        assert(nd[a] == devs[a]);
                        if devs[a].0 == key {
                            assert(exists|j: int| 0 <= j < devs.len() && (|x: (Seq<char>, VirtDeviceModel)| x.0 == key)(devs[j]));
                        }
                    } else {
                        assert(nd[a] == devs[a] && nd[b] == devs[b]);
                    }
                }
            }
            assert forall|q: int| 0 <= q < d2.len() implies keys_unique(#[trigger] d2[q].1) by {
                if q != p {
                    assert(d2[q] == db[q]);
                }
            }
            assert forall|a: int, b: int| 0 <= a < b < d2.len() implies (#[trigger] d2[a]).0 != (#[trigger] d2[b]).0 by {
                assert(d2[a].0 == db[a].0 && d2[b].0 == db[b].0);
            }
        }
        if dev_pos(devs, k) is Some {
            let j = dev_pos(devs, k)->0;
            lemma_first_index_some(devs, |x: (Seq<char>, VirtDeviceModel)| x.0 == k);
            let d3 = delete_device_model(db, n, k).0;
            let nd = devs.remove(j);
            assert(d3 == db.update(p, (n, nd)));
            assert(keys_unique(nd)) by {
                assert forall|a: int, b: int| 0 <= a < b < nd.len() implies (#[trigger] nd[a]).0 != (#[trigger] nd[b]).0 by {
                    let a0 = if a < j { a } else { a + 1 };
                    let b0 = if b < j { b } else { b + 1 };
                    assert(nd[a] == devs[a0] && nd[b] == devs[b0]);
                    assert(0 <= a0 < b0 < devs.len());
                }
            }
            assert forall|q: int| 0 <= q < d3.len() implies keys_unique(#[trigger] d3[q].1) by {
                if q != p {
                    assert(d3[q] == db[q]);
                }
            }
            assert forall|a: int, b: int| 0 <= a < b < d3.len() implies (#[trigger] d3[a]).0 != (#[trigger] d3[b]).0 by {
                assert(d3[a].0 == db[a].0 && d3[b].0 == db[b].0);
            }
        }
    }
}

/// Registering a device and then asking for it under its virtual GUID text
/// gives the answer the registration gave.
pub proof fn law_add_then_get(db: DbModel, cfg: Map<u128, Seq<Seq<char>>>, n: u128, i: DeviceInputModel)
    requires
        add_device_model(db, cfg, n, i).1 is Ok,
    ensures
        get_device_model(add_device_model(db, cfg, n, i).0, n, i.virtual_device_guid_string)
            == add_device_model(db, cfg, n, i).1,
{
    let k = i.virtual_device_guid_string;
    let p = net_pos(db, n)->0;
    let devs = db[p].1;
    let db1 = add_device_model(db, cfg, n, i).0;
    let entry = (k, device_of_input(i));
    lemma_first_index_some(db, |x: (u128, Seq<(Seq<char>, VirtDeviceModel)>)| x.0 == n);
    lemma_first_index_update(db, |x: (u128, Seq<(Seq<char>, VirtDeviceModel)>)| x.0 == n, p, (n, devs.push(entry)));
    lemma_first_index_push(devs, |x: (Seq<char>, VirtDeviceModel)| x.0 == k, entry);
    assert(db1[p].1 == devs.push(entry));
    assert(devs.push(entry)[devs.len() as int] == entry);
}

/// Removing a device right after registering it gives the answer the
/// registration gave and leaves the registry as it was before.
pub proof fn law_add_then_delete(db: DbModel, cfg: Map<u128, Seq<Seq<char>>>, n: u128, i: DeviceInputModel)
    requires
        add_device_model(db, cfg, n, i).1 is Ok,
    ensures
        delete_device_model(add_device_model(db, cfg, n, i).0, n, i.virtual_device_guid_string) == (
            db,
            add_device_model(db, cfg, n, i).1,
        ),
{
    let k = i.virtual_device_guid_string;
    let p = net_pos(db, n)->0;
    let devs = db[p].1;
    let db1 = add_device_model(db, cfg, n, i).0;
    let entry = (k, device_of_input(i));
    lemma_first_index_some(db, |x: (u128, Seq<(Seq<char>, VirtDeviceModel)>)| x.0 == n);
    lemma_first_index_update(db, |x: (u128, Seq<(Seq<char>, VirtDeviceModel)>)| x.0 == n, p, (n, devs.push(entry)));
    lemma_first_index_push(devs, |x: (Seq<char>, VirtDeviceModel)| x.0 == k, entry);
    assert(db1[p].1 == devs.push(entry));
    assert(devs.push(entry).remove(devs.len() as int) =~= devs);
    assert(db1.update(p, (n, devs)) =~= db);
}

/// Registering a network that is registered already is refused and changes
/// nothing; in particular registering the same network twice fails the
/// second time.
pub proof fn law_register_twice(db: DbModel, n: u128)
    ensures
        register_network_model(register_network_model(db, n).0, n) == (
            register_network_model(db, n).0,
            Err::<(), Seq<char>>(network_exists_message(n)),
        ),
{
    if net_pos(db, n) is None {
        lemma_first_index_push(db, |x: (u128, Seq<(Seq<char>, VirtDeviceModel)>)| x.0 == n, (n, Seq::empty()));
    }
}

/// A refused registration or removal leaves the registry as it was.
pub proof fn law_db_refusals_change_nothing(
    db: DbModel,
    cfg: Map<u128, Seq<Seq<char>>>,
    n: u128,
    i: DeviceInputModel,
    k: Seq<char>,
)
    ensures
        add_device_model(db, cfg, n, i).1 is Err ==> add_device_model(db, cfg, n, i).0 == db,
        delete_device_model(db, n, k).1 is Err ==> delete_device_model(db, n, k).0 == db,
        register_network_model(db, n).1 is Err ==> register_network_model(db, n).0 == db,
{
}

} // verus!
