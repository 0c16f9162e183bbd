//! What the command line tool decides around its requests to the
//! coordinator: where they go and how refusals are reported.

use vstd::prelude::*;
use vstd::string::StringExecFns;
use crate::urls::{uuid_text, uuid_to_string, uuid_parse, uuid_parsed};
use crate::ocp_recv::{OCPRecData, RecDataModel};
use crate::coordinator::errors::{STATUS_NOT_FOUND, STATUS_CONFLICT};
use crate::ocp::DEVICE_NAME_PATTERN;
use crate::regex::{OveyRegex, regex_compiles};
use crate::guid::{guid_value, guid_text, guid_string_to_u64, guid_u64_to_string};
use vstd::string::StringSliceAdditionalSpecFns;

verus! {

/// The coordinator all networks are served by.
pub const COORDINATOR_HOST: &'static str = "nadu1:13337";

/// The host (and port) of the coordinator responsible for `network`.
pub fn get_host(network: u128) -> (r: Result<String, String>)
    ensures
        r matches Ok(h) && h@ == COORDINATOR_HOST@,
{
    Ok(String::from_str(COORDINATOR_HOST))
}

/// The url of `endpoint` at the coordinator `host`.
pub fn coordinator_url(host: &str, endpoint: &str) -> (r: String)
    ensures
        r@ == "http://"@ + host@ + endpoint@,
{
    let mut s = String::from_str("http://");
    s.append(host);
    s.append(endpoint);
    s
}

/// `prefix`, the device, a blank and the network's UUID.
pub open spec fn device_message(prefix: Seq<char>, device: Seq<char>, network: u128) -> Seq<char> {
    prefix + device + " "@ + uuid_text(network)
}

/// `prefix`, the device, a blank and the network's UUID.
fn device_message_exec(prefix: &str, device: &str, network: u128) -> (r: String)
    ensures
        r@ == device_message(prefix@, device@, network),
{
    let mut s = String::from_str(prefix);
    s.append(device);
    s.append(" ");
    let u = uuid_to_string(network);
    s.append(u.as_str());
    s
}

/// The optional text of an optional string.
pub open spec fn opt_message(r: Option<String>) -> Option<Seq<char>> {
    match r {
        Some(s) => Some(s@),
        None => None,
    }
}

/// The refusal a coordinator's answer with HTTP status `status` to the
/// registration of `device` in `network` means, if any: "not found" means the
/// device does not exist, "conflict" that it is registered already.
pub fn create_reply_error(status: u16, device: &str, network: u128) -> (r: Option<String>)
    ensures
        opt_message(r) == if status == STATUS_NOT_FOUND {
            Some(device_message("Device does not exist: "@, device@, network))
        } else if status == STATUS_CONFLICT {
            Some(device_message("Device already registered: "@, device@, network))
        } else {
            None
        },
{
    if status == STATUS_NOT_FOUND {
        Some(device_message_exec("Device does not exist: ", device, network))
    } else if status == STATUS_CONFLICT {
        Some(device_message_exec("Device already registered: ", device, network))
    } else {
        None
    }
}

/// The refusal a coordinator's answer with HTTP status `status` to the removal
/// of `device` from `network` means, if any: "not found" means the device does
/// not exist.
pub fn delete_reply_error(status: u16, device: &str, network: u128) -> (r: Option<String>)
    ensures
        opt_message(r) == if status == STATUS_NOT_FOUND {
            Some(device_message("Device does not exist: "@, device@, network))
        } else {
            None
        },
{
    if status == STATUS_NOT_FOUND {
        Some(device_message_exec("Device does not exist: ", device, network))
    } else {
        None
    }
}

/// The regex that names of Ovey devices match; `None` where the regex crate
/// refuses the pattern.
pub fn build_ovey_regex() -> (r: Option<OveyRegex>)
    ensures
        r is Some <==> regex_compiles(DEVICE_NAME_PATTERN@),
        r matches Some(x) ==> x@ == DEVICE_NAME_PATTERN@,
{
    OveyRegex::new(DEVICE_NAME_PATTERN)
}

/// What the tool lists of a local Ovey device.
#[derive(Debug, Clone, PartialEq, Eq)]
pub struct DeviceInfo {
    pub dev_name: String,
    pub parent_dev_name: String,
    pub guid: u64,
    pub lid: u16,
    pub parent_guid: u64,
    pub virtual_network_id: u128,
}

/// The LID listed for a device whose LID the kernel did not report.
pub const DEFAULT_LID: u16 = 42;

/// What is listed of a device the kernel reported as `m`: its names, GUIDs, LID
/// (42 where none was reported) and network; nothing where a name, a GUID or
/// the network is missing or the network is no UUID.
pub open spec fn device_info_model(m: RecDataModel) -> Option<(Seq<char>, Seq<char>, u64, u16, u64, u128)> {
    if m.device_name is Some && m.parent_device_name is Some && m.node_guid is Some
        && m.parent_node_guid is Some && m.virt_network_uuid_str is Some && uuid_parsed(
        m.virt_network_uuid_str->0,
    ) is Some {
        Some(
            (
                m.device_name->0,
                m.parent_device_name->0,
                m.node_guid->0,
                if m.node_lid is Some {
                    m.node_lid->0
                } else {
                    DEFAULT_LID
                },
                m.parent_node_guid->0,
                uuid_parsed(m.virt_network_uuid_str->0)->0,
            ),
        )
    } else {
        None
    }
}

/// The view of what is listed of a device.
pub open spec fn device_info_view(r: Option<DeviceInfo>) -> Option<(Seq<char>, Seq<char>, u64, u16, u64, u128)> {
    match r {
        Some(d) => Some((d.dev_name@, d.parent_dev_name@, d.guid, d.lid, d.parent_guid, d.virtual_network_id)),
        None => None,
    }
}

/// What is listed of a device the kernel reported (see `device_info_model`).
pub fn device_info(data: &OCPRecData) -> (r: Option<DeviceInfo>)
    ensures
        device_info_view(r) == device_info_model(data@),
{
    let dev_name = match data.device_name() {
        Some(s) => s.clone(),
        None => {
            return None;
        },
    };
    let parent_dev_name = match data.parent_device_name() {
        Some(s) => s.clone(),
        None => {
            return None;
        },
    };
    let guid = match data.node_guid() {
        Some(g) => g,
        None => {
            return None;
        },
    };
    let parent_guid = match data.parent_node_guid() {
        Some(g) => g,
        None => {
            return None;
        },
    };
    let network_text = match data.virt_network_uuid_str() {
        Some(s) => s,
        None => {
            return None;
        },
    };
    let virtual_network_id = match uuid_parse(network_text.as_str()) {
        Ok(u) => u,
        Err(_) => {
            return None;
        },
    };
    let lid = match data.node_lid() {
        Some(l) => l,
        None => DEFAULT_LID,
    };
    Some(DeviceInfo { dev_name, parent_dev_name, guid, lid, parent_guid, virtual_network_id })
}

/// The message of the first failed lookup, if any failed.
pub fn first_error<T>(results: &[Result<T, String>]) -> (r: Option<String>)
    ensures
        match r {
            Some(m) => exists|i: int|
                #![trigger results@[i]]
                0 <= i < results@.len() && (results@[i] matches Err(e) && e@ == m@) && forall|j: int|
                    0 <= j < i ==> (#[trigger] results@[j]) is Ok,
            None => forall|j: int| 0 <= j < results@.len() ==> (#[trigger] results@[j]) is Ok,
        },
{
    let mut i: usize = 0;
    while i < results.len()
        invariant
            i <= results@.len(),
            forall|j: int| 0 <= j < i ==> (#[trigger] results@[j]) is Ok,
        decreases results@.len() - i,
    {
        match &results[i] {
            Err(e) => {
                let m = e.clone();
                assert(results@[i as int] matches Err(e2) && e2@ == m@);
                return Some(m);
            },
            Ok(_) => {},
        }
        i = i + 1;
    }
    None
}

/// The message listing gives for a device whose information could not be
/// fetched via OCP.
pub open spec fn device_info_error_text(dev: Seq<char>, err: Seq<char>) -> Seq<char> {
    "Device not found. Could not fetch info for device '"@ + dev + "' via OCP. err='"@ + err
        + "'"@
}

/// Words the error for a device whose information could not be fetched via OCP.
pub fn device_info_error(dev: &str, err: &str) -> (r: String)
    ensures
        r@ == device_info_error_text(dev@, err@),
{
    let mut s = String::from_str("Device not found. Could not fetch info for device '");
    s.append(dev);
    s.append("' via OCP. err='");
    s.append(err);
    s.append("'");
    s
}

/// `r` is the listing of the local devices `names`, where `fetched[i]` is what
/// asking the kernel for `names[i]` gave: the first failed request is reported
/// (see `device_info_error_text`); otherwise what is listed of each device, in
/// order.
pub open spec fn listing(names: Seq<String>, fetched: Seq<Result<OCPRecData, String>>, r: Result<
    Vec<DeviceInfo>,
    String,
>) -> bool {
    match r {
        Err(m) => exists|i: int|
            #![trigger fetched[i]]
            0 <= i < fetched.len() && (fetched[i] matches Err(e) && m@ == device_info_error_text(
                names[i]@,
                e@,
            )) && forall|j: int| 0 <= j < i ==> (#[trigger] fetched[j]) is Ok,
        Ok(v) => v@.len() == fetched.len() && forall|j: int|
            0 <= j < fetched.len() ==> (#[trigger] fetched[j]) is Ok && device_info_view(
                Some(v@[j]),
            ) == device_info_model(fetched[j]->Ok_0@),
    }
}

/// Every request succeeded and some device report lacks what is listed.
pub open spec fn listing_incomplete(fetched: Seq<Result<OCPRecData, String>>) -> bool {
    &&& forall|j: int| 0 <= j < fetched.len() ==> (#[trigger] fetched[j]) is Ok
    &&& exists|j: int| 0 <= j < fetched.len() && device_info_model((#[trigger] fetched[j])->Ok_0@) is None
}

/// The listing of the local devices `names` (see `listing`), where `fetched[i]`
/// is what asking the kernel for `names[i]` gave.
pub fn list_devices(names: &[String], fetched: &[Result<OCPRecData, String>]) -> (r: Result<
    Vec<DeviceInfo>,
    String,
>)
    requires
        names@.len() == fetched@.len(),
        !listing_incomplete(fetched@),
    ensures
        listing(names@, fetched@, r),
{
    let mut i: usize = 0;
    while i < fetched.len()
        invariant
            i <= fetched@.len(),
            names@.len() == fetched@.len(),
            forall|j: int| 0 <= j < i ==> (#[trigger] fetched@[j]) is Ok,
        decreases fetched@.len() - i,
    {
        match &fetched[i] {
            Err(e) => {
                let m = device_info_error(names[i].as_str(), e.as_str());
                assert(fetched@[i as int] matches Err(e2) && m@ == device_info_error_text(
                    names@[i as int]@,
                    e2@,
                ));
                return Err(m);
            },
            Ok(_) => {},
        }
        i = i + 1;
    }
    assert forall|j: int| 0 <= j < fetched@.len() implies device_info_model(
        (#[trigger] fetched@[j])->Ok_0@,
    ) is Some by {
        if device_info_model(fetched@[j]->Ok_0@) is None {
            assert(listing_incomplete(fetched@));
        }
    }
    let mut out: Vec<DeviceInfo> = Vec::new();
    let mut k: usize = 0;
    while k < fetched.len()
        invariant
            k <= fetched@.len(),
            out@.len() == k,
            forall|j: int| 0 <= j < fetched@.len() ==> (#[trigger] fetched@[j]) is Ok,
            forall|j: int|
                0 <= j < fetched@.len() ==> device_info_model((#[trigger] fetched@[j])->Ok_0@) is Some,
            forall|j: int|
                0 <= j < k ==> device_info_view(Some(#[trigger] out@[j])) == device_info_model(
                    fetched@[j]->Ok_0@,
                ),
        decreases fetched@.len() - k,
    {
        assert(fetched@[k as int] is Ok);
        match &fetched[k] {
            Ok(d) => {
                let info = device_info(d);
                assert(device_info_model(fetched@[k as int]->Ok_0@) is Some);
                let x = info.unwrap();
                out.push(x);
            },
            Err(_) => {},
        }
        k = k + 1;
    }
    Ok(out)
}

/// The listing of the local devices `names` where it can be made: `None` where
/// `names` and `fetched` differ in length, or where every request succeeded but
/// some report lacks what is listed (see `listing_incomplete`); otherwise the
/// listing (see `listing`).
pub fn list_devices_checked(names: &[String], fetched: &[Result<OCPRecData, String>]) -> (r: Option<
    Result<Vec<DeviceInfo>, String>,
>)
    ensures
        r is None <==> names@.len() != fetched@.len() || listing_incomplete(fetched@),
        r matches Some(x) ==> listing(names@, fetched@, x),
{
    if names.len() != fetched.len() {
        return None;
    }
    let mut all_ok = true;
    let mut complete = true;
    let mut j: usize = 0;
    while j < fetched.len()
        invariant
            j <= fetched@.len(),
            all_ok == forall|i: int| 0 <= i < j ==> (#[trigger] fetched@[i]) is Ok,
            complete == forall|i: int|
                0 <= i < j && (#[trigger] fetched@[i]) is Ok ==> device_info_model(fetched@[i]->Ok_0@) is Some,
        decreases fetched@.len() - j,
    {
        match &fetched[j] {
            Ok(d) => {
                if device_info(d).is_none() {
                    complete = false;
                }
            },
            Err(_) => {
                all_ok = false;
            },
        }
        j = j + 1;
    }
    if all_ok && !complete {
        proof {
            let i = choose|i: int|
                0 <= i < fetched@.len() && (#[trigger] fetched@[i]) is Ok && !(device_info_model(
                    fetched@[i]->Ok_0@,
                ) is Some);
            assert(device_info_model(fetched@[i]->Ok_0@) is None);
        }
        return None;
    }
    Some(list_devices(names, fetched))
}

/// Where the creation of a device stands: first the device is created in the
/// kernel module, then its information is read back from the kernel, then it is
/// registered at the coordinator.
#[derive(Debug, Clone, Copy, PartialEq, Eq, Structural)]
pub enum CreateState {
    Start,
    CreatingLocally,
    FetchingInfo,
    Registering,
    Done,
}

/// What the program does next while creating a device.
#[derive(Debug)]
pub enum CreateAction {
    /// Create the device in the kernel module with this GUID (in host order).
    CreateLocally { guid_he: u64 },
    /// Ask the kernel module about the device.
    FetchInfo,
    /// Register the device at the coordinator, with its parent's GUID as text.
    Register { physical_guid: String },
    /// Stop, with this outcome.
    Finish(Result<(), String>),
}

/// What came back from the last action.
#[derive(Debug)]
pub enum CreateEvent {
    /// Nothing yet: the creation begins.
    Begin,
    /// The kernel module created the device, or why not.
    LocallyCreated(Result<(), String>),
    /// The parent GUID the kernel module reported for the device, or why the
    /// request failed.
    Info(Result<Option<u64>, String>),
    /// The coordinator registered the device, or why not.
    Registered(Result<(), String>),
}

/// The events each state waits for.
pub open spec fn create_event_fits(state: CreateState, event: CreateEvent) -> bool {
    match state {
        CreateState::Start => event is Begin,
        CreateState::CreatingLocally => event is LocallyCreated,
        CreateState::FetchingInfo => event matches CreateEvent::Info(r) && !(r matches Ok(None)),
        CreateState::Registering => event is Registered,
        CreateState::Done => false,
    }
}

/// One step of creating a device whose GUID text is `guid`: from where the
/// creation stands and what the last action gave, where it stands next and what
/// to do. A failure of the kernel module is reported with what failed, and ends
/// the creation; the device is then not registered.
pub fn create_device_step(state: CreateState, event: CreateEvent, guid: &str) -> (r: (
    CreateState,
    CreateAction,
))
    requires
        create_event_fits(state, event),
        state == CreateState::Start ==> guid_value(guid.spec_bytes()) is Some,
    ensures
        match (state, event) {
            (CreateState::Start, _) => {
                &&& r.0 == CreateState::CreatingLocally
                &&& r.1 matches CreateAction::CreateLocally { guid_he } && Some(guid_he) == guid_value(
                    guid.spec_bytes(),
                )
            },
            (CreateState::CreatingLocally, CreateEvent::LocallyCreated(Ok(()))) => {
                &&& r.0 == CreateState::FetchingInfo
                &&& r.1 is FetchInfo
            },
            (CreateState::CreatingLocally, CreateEvent::LocallyCreated(Err(e))) => {
                &&& r.0 == CreateState::Done
                &&& r.1 matches CreateAction::Finish(Err(m)) && m@ == "failed to create device: "@ + e@
            },
            (CreateState::FetchingInfo, CreateEvent::Info(Ok(Some(g)))) => {
                &&& r.0 == CreateState::Registering
                &&& r.1 matches CreateAction::Register { physical_guid } && physical_guid@ == guid_text(g)
            },
            (CreateState::FetchingInfo, CreateEvent::Info(Err(e))) => {
                &&& r.0 == CreateState::Done
                &&& r.1 matches CreateAction::Finish(Err(m)) && m@ == "Failed to get device info: "@ + e@
            },
            (CreateState::Registering, CreateEvent::Registered(Ok(()))) => {
                &&& r.0 == CreateState::Done
                &&& r.1 matches CreateAction::Finish(Ok(()))
            },
            (CreateState::Registering, CreateEvent::Registered(Err(e))) => {
                &&& r.0 == CreateState::Done
                &&& r.1 matches CreateAction::Finish(Err(m)) && m@ == e@
            },
            _ => false,
        },
{
    match state {
        CreateState::Start => {
            let g = guid_string_to_u64(guid);
            (CreateState::CreatingLocally, CreateAction::CreateLocally { guid_he: g })
        },
        CreateState::CreatingLocally => match event {
            CreateEvent::LocallyCreated(Ok(())) => (CreateState::FetchingInfo, CreateAction::FetchInfo),
            CreateEvent::LocallyCreated(Err(e)) => {
                let mut m = String::from_str("failed to create device: ");
                m.append(e.as_str());
                (CreateState::Done, CreateAction::Finish(Err(m)))
            },
            _ => (CreateState::Done, CreateAction::FetchInfo),
        },
        CreateState::FetchingInfo => match event {
            CreateEvent::Info(Ok(Some(g))) => (
                CreateState::Registering,
                CreateAction::Register { physical_guid: guid_u64_to_string(g) },
            ),
            CreateEvent::Info(Err(e)) => {
                let mut m = String::from_str("Failed to get device info: ");
                m.append(e.as_str());
                (CreateState::Done, CreateAction::Finish(Err(m)))
            },
            _ => (CreateState::Done, CreateAction::FetchInfo),
        },
        CreateState::Registering => match event {
            CreateEvent::Registered(res) => (CreateState::Done, CreateAction::Finish(res)),
            _ => (CreateState::Done, CreateAction::FetchInfo),
        },
        CreateState::Done => (CreateState::Done, CreateAction::FetchInfo),
    }
}

/// What removing the device the kernel reported as `info` needs at the
/// coordinator: the UUID of the device's network and the text of its GUID. Where
/// the network text is no UUID, the error says so with the uuid crate's message.
pub fn deletion_target(info: &OCPRecData) -> (r: Result<(u128, String), String>)
    requires
        info@.virt_network_uuid_str is Some,
        info@.node_guid is Some,
    ensures
        r is Ok <==> uuid_parsed(info@.virt_network_uuid_str->0) is Some,
        r matches Ok((n, g)) ==> uuid_parsed(info@.virt_network_uuid_str->0) == Some(n) && g@
            == guid_text(info@.node_guid->0),
        r matches Err(m) ==> exists|e: Seq<char>| m@ == "Failed to convert to UUID: "@ + e,
{
    let network_text = info.virt_network_uuid_str().unwrap();
    let network = match uuid_parse(network_text.as_str()) {
        Ok(n) => n,
        Err(e) => {
            let mut m = String::from_str("Failed to convert to UUID: ");
            m.append(e.as_str());
            assert(m@ == "Failed to convert to UUID: "@ + e@);
            return Err(m);
        },
    };
    let guid = guid_u64_to_string(info.node_guid().unwrap());
    Ok((network, guid))
}

/// How the removal of a device went, on this machine and at the coordinator.
#[derive(Debug, Clone, PartialEq, Eq)]
pub struct DeletionState {
    pub deletion_local_successfully: bool,
    pub deletion_local_info_msg: Option<String>,
    pub deletion_coordinator_successfully: bool,
    pub deletion_coordinator_info_msg: Option<String>,
}

/// The message of a failed step.
pub open spec fn failure_message<T>(r: Result<T, String>) -> Option<Seq<char>> {
    match r {
        Ok(_) => None,
        Err(e) => Some(e@),
    }
}

/// The outcome of a removal from the outcomes of its two steps: each step
/// succeeded or not, with its error message where it failed.
pub fn deletion_state<A, B>(local: &Result<A, String>, coordinator: &Result<B, String>) -> (r: DeletionState)
    ensures
        r.deletion_local_successfully == (*local is Ok),
        opt_message(r.deletion_local_info_msg) == failure_message(*local),
        r.deletion_coordinator_successfully == (*coordinator is Ok),
        opt_message(r.deletion_coordinator_info_msg) == failure_message(*coordinator),
{
    let local_msg = match local {
        Ok(_) => None,
        Err(e) => Some(e.clone()),
    };
    let coordinator_msg = match coordinator {
        Ok(_) => None,
        Err(e) => Some(e.clone()),
    };
    DeletionState {
        deletion_local_successfully: local.is_ok(),
        deletion_local_info_msg: local_msg,
        deletion_coordinator_successfully: coordinator.is_ok(),
        deletion_coordinator_info_msg: coordinator_msg,
    }
}

} // verus!
