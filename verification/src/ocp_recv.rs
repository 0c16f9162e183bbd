//! Data the kernel sends via OCP: the attributes of a received generic-netlink
//! message, decoded to their Rust types.

use vstd::prelude::*;
use vstd::bytes::{
    spec_u64_from_le_bytes, spec_u32_from_le_bytes, spec_u64_to_le_bytes, u64_from_le_bytes,
    lemma_auto_spec_u64_to_from_le_bytes,
};
use vstd::utf8::{valid_utf8, decode_utf8};
use crate::ocp::OveyAttribute;
use crate::guid::{guid_text, guid_u64_to_string};
use crate::lid::{lid_text, lid_u16_to_string};
use crate::endianness::{Endianness, swap_bytes_u64};
use crate::text::{str_chars, string_push};

verus! {

/// One attribute of a received message: its type and its raw payload.
pub struct OcpAttr {
    pub kind: OveyAttribute,
    pub payload: Vec<u8>,
}

impl View for OcpAttr {
    type V = (OveyAttribute, Seq<u8>);

    open spec fn view(&self) -> (OveyAttribute, Seq<u8>) {
        (self.kind, self.payload@)
    }
}

/// The attributes of a message as types and payloads.
pub open spec fn attrs_view(attrs: Seq<OcpAttr>) -> Seq<(OveyAttribute, Seq<u8>)> {
    attrs.map_values(|a: OcpAttr| a@)
}

/// The text of a string payload: its UTF-8 text without the NUL characters at
/// either end.
pub open spec fn payload_text(p: Seq<u8>) -> Seq<char> {
    trim_end_nul(trim_start_nul(decode_utf8(p)))
}

/// The number eight bytes hold in big-endian order, most significant byte
/// first: the order in which the kernel module keeps GUIDs.
pub open spec fn be_u64(p: Seq<u8>) -> u64 {
    spec_u64_from_le_bytes(p.reverse())
}

/// `x` is what eight payload bytes read in the machine's byte order give.
pub open spec fn ne_u64(p: Seq<u8>, x: u64) -> bool {
    p.len() == 8 && (x == spec_u64_from_le_bytes(p) || x == spec_u64_from_le_bytes(p.reverse()))
}

/// `x` is what four payload bytes read in the machine's byte order give.
pub open spec fn ne_u32(p: Seq<u8>, x: u32) -> bool {
    p.len() == 4 && (x == spec_u32_from_le_bytes(p) || x == spec_u32_from_le_bytes(p.reverse()))
}

/// Calls `<u64 as neli::Nl>::deserialize`, which reads exactly eight bytes in
/// the machine's byte order (and refuses other lengths; the error is mapped to
/// `None`). Which byte order applies depends on the machine, so the contract
/// states only that it is one of the two.
#[verifier::external_body]
pub(crate) fn nl_u64(payload: &[u8]) -> (r: Option<u64>)
    ensures
        r is Some <==> payload@.len() == 8,
        r matches Some(x) ==> ne_u64(payload@, x),
{
    <u64 as neli::Nl>::deserialize(payload).ok()
}

/// Calls `<u32 as neli::Nl>::deserialize`, which reads exactly four bytes in
/// the machine's byte order (and refuses other lengths; the error is mapped to
/// `None`). Which byte order applies depends on the machine, so the contract
/// states only that it is one of the two.
#[verifier::external_body]
pub(crate) fn nl_u32(payload: &[u8]) -> (r: Option<u32>)
    ensures
        r is Some <==> payload@.len() == 4,
        r matches Some(x) ==> ne_u32(payload@, x),
{
    <u32 as neli::Nl>::deserialize(payload).ok()
}

/// The payload of the last attribute of type `k`.
pub open spec fn last_payload(a: Seq<(OveyAttribute, Seq<u8>)>, k: OveyAttribute) -> Option<Seq<u8>>
    decreases a.len(),
{
    if a.len() == 0 {
        None
    } else if a.last().0 == k {
        Some(a.last().1)
    } else {
        last_payload(a.drop_last(), k)
    }
}

/// Whether the payload of one attribute can be decoded: strings must be UTF-8
/// and GUIDs eight bytes long. Numbers of another length are read as missing,
/// and attributes of other types are ignored.
pub open spec fn attr_decodes(x: (OveyAttribute, Seq<u8>)) -> bool {
    match x.0 {
        OveyAttribute::Msg => valid_utf8(x.1),
        OveyAttribute::DeviceName => valid_utf8(x.1),
        OveyAttribute::ParentDeviceName => valid_utf8(x.1),
        OveyAttribute::VirtNetUuidStr => valid_utf8(x.1),
        OveyAttribute::NodeGuid => x.1.len() == 8,
        OveyAttribute::ParentNodeGuid => x.1.len() == 8,
        OveyAttribute::CompletionId => true,
        OveyAttribute::SocketKind => true,
        OveyAttribute::VirtPropertyU32 => true,
        OveyAttribute::RealPropertyU32 => true,
        OveyAttribute::Unspec => true,
        OveyAttribute::UnrecognizedVariant(_) => true,
    }
}

/// Whether every attribute of a message decodes.
pub open spec fn rec_data_decodes(a: Seq<(OveyAttribute, Seq<u8>)>) -> bool {
    forall|i: int| 0 <= i < a.len() ==> attr_decodes(#[trigger] a[i])
}

/// The text of the last attribute of type `k`, without NUL characters at either
/// end.
pub open spec fn string_field(a: Seq<(OveyAttribute, Seq<u8>)>, k: OveyAttribute) -> Option<
    Seq<char>,
> {
    match last_payload(a, k) {
        Some(p) => Some(payload_text(p)),
        None => None,
    }
}

/// The GUID the last attribute of type `k` holds, restored to host order from
/// the kernel's big-endian order: the number its bytes give read most
/// significant first.
pub open spec fn guid_field(a: Seq<(OveyAttribute, Seq<u8>)>, k: OveyAttribute) -> Option<u64> {
    match last_payload(a, k) {
        Some(p) => Some(be_u64(p)),
        None => None,
    }
}

/// `v` is the number the last attribute of type `k` holds, or none where there is
/// no such attribute or its payload is not eight bytes long.
pub open spec fn u64_field(a: Seq<(OveyAttribute, Seq<u8>)>, k: OveyAttribute, v: Option<u64>) -> bool {
    match last_payload(a, k) {
        Some(p) => if p.len() == 8 {
            v is Some && ne_u64(p, v->0)
        } else {
            v is None
        },
        None => v is None,
    }
}

/// `v` is the number the last attribute of type `k` holds, or none where there is
/// no such attribute or its payload is not four bytes long.
pub open spec fn u32_field(a: Seq<(OveyAttribute, Seq<u8>)>, k: OveyAttribute, v: Option<u32>) -> bool {
    match last_payload(a, k) {
        Some(p) => if p.len() == 4 {
            v is Some && ne_u32(p, v->0)
        } else {
            v is None
        },
        None => v is None,
    }
}

/// What a received message holds.
pub ghost struct RecDataModel {
    pub msg: Option<Seq<char>>,
    pub device_name: Option<Seq<char>>,
    pub parent_device_name: Option<Seq<char>>,
    pub node_guid: Option<u64>,
    pub node_lid: Option<u16>,
    pub parent_node_guid: Option<u64>,
    pub virt_network_uuid_str: Option<Seq<char>>,
    pub socket_kind: Option<u32>,
    pub completion_id: Option<u64>,
}

/// The text of an optional string.
pub open spec fn opt_text(s: Option<String>) -> Option<Seq<char>> {
    match s {
        Some(t) => Some(t@),
        None => None,
    }
}

/// The text of an optional borrowed string.
pub open spec fn opt_ref_text(s: Option<&String>) -> Option<Seq<char>> {
    match s {
        Some(t) => Some(t@),
        None => None,
    }
}

/// Struct that holds all the data that can be received via OCP from the kernel. It's up
/// to the caller function to extract the right data.
#[derive(Debug)]
pub struct OCPRecData {
    msg: Option<String>,
    device_name: Option<String>,
    parent_device_name: Option<String>,
    node_guid: Option<u64>,
    node_lid: Option<u16>,
    parent_node_guid: Option<u64>,
    virt_network_uuid_str: Option<String>,
    socket_kind: Option<u32>,
    completion_id: Option<u64>,
}

impl View for OCPRecData {
    type V = RecDataModel;

    closed spec fn view(&self) -> RecDataModel {
        RecDataModel {
            msg: opt_text(self.msg),
            device_name: opt_text(self.device_name),
            parent_device_name: opt_text(self.parent_device_name),
            node_guid: self.node_guid,
            node_lid: self.node_lid,
            parent_node_guid: self.parent_node_guid,
            virt_network_uuid_str: opt_text(self.virt_network_uuid_str),
            socket_kind: self.socket_kind,
            completion_id: self.completion_id,
        }
    }
}

/// The fields decoded from the attributes `a`: each from the last attribute of
/// its type.
pub open spec fn rec_data_from(a: Seq<(OveyAttribute, Seq<u8>)>, m: RecDataModel) -> bool {
    &&& m.msg == string_field(a, OveyAttribute::Msg)
    &&& m.device_name == string_field(a, OveyAttribute::DeviceName)
    &&& m.parent_device_name == string_field(a, OveyAttribute::ParentDeviceName)
    &&& m.virt_network_uuid_str == string_field(a, OveyAttribute::VirtNetUuidStr)
    &&& m.node_guid == guid_field(a, OveyAttribute::NodeGuid)
    &&& m.parent_node_guid == guid_field(a, OveyAttribute::ParentNodeGuid)
    &&& u64_field(a, OveyAttribute::CompletionId, m.completion_id)
    &&& u32_field(a, OveyAttribute::SocketKind, m.socket_kind)
    &&& m.node_lid is None
}

/// Reads a GUID the kernel sent: the eight bytes are read as a number in the
/// machine's byte order, and that number is converted from big-endian order to
/// host order on the same machine. On either kind of machine the result is the
/// number the bytes give read most significant first.
pub fn u64_from_kernel_bytes(bytes: &[u8]) -> (r: u64)
    requires
        bytes@.len() == 8,
    ensures
        r == be_u64(bytes@),
{
    let e = Endianness::get_system_endianness();
    let le = u64_from_le_bytes(bytes);
    proof {
        lemma_auto_spec_u64_to_from_le_bytes();
        assert(spec_u64_to_le_bytes(le) == bytes@);
    }
    let native = match e {
        Endianness::LittleEndian => le,
        Endianness::BigEndian => swap_bytes_u64(le),
    };
    e.be_to_host(native)
}

impl OCPRecData {
    /// Parses each attribute of a received message to its Rust type; where an
    /// attribute type occurs more than once, the last one counts. Strings lose
    /// the NUL characters at either end; GUIDs arrive in the kernel's big-endian
    /// order and are restored to host order. Attributes carrying properties are
    /// not kept here.
    pub fn new(attrs: &[OcpAttr]) -> (r: OCPRecData)
        requires
            rec_data_decodes(attrs_view(attrs@)),
        ensures
            rec_data_from(attrs_view(attrs@), r@),
    {
        let ghost av = attrs_view(attrs@);
        let mut msg: Option<String> = None;
        let mut device_name: Option<String> = None;
        let mut parent_device_name: Option<String> = None;
        let mut node_guid: Option<u64> = None;
        let mut parent_node_guid: Option<u64> = None;
        let mut virt_network_uuid_str: Option<String> = None;
        let mut socket_kind: Option<u32> = None;
        let mut completion_id: Option<u64> = None;
        let mut i: usize = 0;
        while i < attrs.len()
            invariant
                i <= attrs@.len(),
                av == attrs_view(attrs@),
                rec_data_decodes(av),
                rec_data_from(
                    av.subrange(0, i as int),
                    RecDataModel {
                        msg: opt_text(msg),
                        device_name: opt_text(device_name),
                        parent_device_name: opt_text(parent_device_name),
                        node_guid: node_guid,
                        node_lid: None,
                        parent_node_guid: parent_node_guid,
                        virt_network_uuid_str: opt_text(virt_network_uuid_str),
                        socket_kind: socket_kind,
                        completion_id: completion_id,
                    },
                ),
            decreases attrs@.len() - i,
        {
            let ghost pre = av.subrange(0, i as int + 1);
            assert(pre.drop_last() =~= av.subrange(0, i as int));
            assert(pre.last() == attrs@[i as int]@);
            assert(attr_decodes(av[i as int]));
            let a = &attrs[i];
            let p = a.payload.as_slice();
            match a.kind {
                OveyAttribute::Msg => {
                    msg = Some(bytes_to_string(p));
                },
                OveyAttribute::DeviceName => {
                    device_name = Some(bytes_to_string(p));
                },
                OveyAttribute::ParentDeviceName => {
                    parent_device_name = Some(bytes_to_string(p));
                },
                OveyAttribute::VirtNetUuidStr => {
                    virt_network_uuid_str = Some(bytes_to_string(p));
                },
                OveyAttribute::NodeGuid => {
                    node_guid = Some(u64_from_kernel_bytes(p));
                },
                OveyAttribute::ParentNodeGuid => {
                    parent_node_guid = Some(u64_from_kernel_bytes(p));
                },
                OveyAttribute::SocketKind => {
                    socket_kind = nl_u32(p);
                },
                OveyAttribute::CompletionId => {
                    completion_id = nl_u64(p);
                },
                _ => {},
            }
            i = i + 1;
        }
        assert(av.subrange(0, av.len() as int) =~= av);
        OCPRecData {
            msg,
            device_name,
            parent_device_name,
            node_guid,
            node_lid: None,
            parent_node_guid,
            virt_network_uuid_str,
            socket_kind,
            completion_id,
        }
    }

    /// Whether every attribute of a received message decodes (see `new`).
    pub fn decodes(attrs: &[OcpAttr]) -> (r: bool)
        ensures
            r == rec_data_decodes(attrs_view(attrs@)),
    {
        let ghost av = attrs_view(attrs@);
        let mut i: usize = 0;
        while i < attrs.len()
            invariant
                i <= attrs@.len(),
                av == attrs_view(attrs@),
                forall|j: int| 0 <= j < i ==> attr_decodes(#[trigger] av[j]),
            decreases attrs@.len() - i,
        {
            let a = &attrs[i];
            assert(av[i as int] == attrs@[i as int]@);
            let p = a.payload.as_slice();
            let ok = match a.kind {
                OveyAttribute::Msg | OveyAttribute::DeviceName | OveyAttribute::ParentDeviceName
                | OveyAttribute::VirtNetUuidStr => string_from_utf8(p).is_some(),
                OveyAttribute::NodeGuid | OveyAttribute::ParentNodeGuid => p.len() == 8,
                _ => true,
            };
            if !ok {
                return false;
            }
            i = i + 1;
        }
        true
    }

    /// Getter for [`msg`]
    pub fn msg(&self) -> (r: Option<&String>)
        ensures
            opt_ref_text(r) == self@.msg,
    {
        self.msg.as_ref()
    }

    /// Getter for [`device_name`]
    pub fn device_name(&self) -> (r: Option<&String>)
        ensures
            opt_ref_text(r) == self@.device_name,
    {
        self.device_name.as_ref()
    }

    /// Getter for [`parent_device_name`]
    pub fn parent_device_name(&self) -> (r: Option<&String>)
        ensures
            opt_ref_text(r) == self@.parent_device_name,
    {
        self.parent_device_name.as_ref()
    }

    /// Getter for [`virt_network_uuid_str`]
    pub fn virt_network_uuid_str(&self) -> (r: Option<&String>)
        ensures
            opt_ref_text(r) == self@.virt_network_uuid_str,
    {
        self.virt_network_uuid_str.as_ref()
    }

    /// Getter for [`node_guid`]
    pub fn node_guid(&self) -> (r: Option<u64>)
        ensures
            r == self@.node_guid,
    {
        self.node_guid
    }

    /// Getter for [`node_lid`]
    pub fn node_lid(&self) -> (r: Option<u16>)
        ensures
            r == self@.node_lid,
    {
        self.node_lid
    }

    /// Getter for [`parent_node_guid`]
    pub fn parent_node_guid(&self) -> (r: Option<u64>)
        ensures
            r == self@.parent_node_guid,
    {
        self.parent_node_guid
    }

    /// The node GUID in its text form.
    pub fn node_guid_str(&self) -> (r: Option<String>)
        ensures
            opt_text(r) == match self@.node_guid {
                Some(g) => Some(guid_text(g)),
                None => None,
            },
    {
        match self.node_guid {
            Some(g) => Some(guid_u64_to_string(g)),
            None => None,
        }
    }

    /// The node LID in its text form.
    pub fn node_lid_str(&self) -> (r: Option<String>)
        ensures
            opt_text(r) == match self@.node_lid {
                Some(l) => Some(lid_text(l)),
                None => None,
            },
    {
        match self.node_lid {
            Some(l) => Some(lid_u16_to_string(l)),
            None => None,
        }
    }

    /// The parent node GUID in its text form.
    pub fn parent_node_guid_str(&self) -> (r: Option<String>)
        ensures
            opt_text(r) == match self@.parent_node_guid {
                Some(g) => Some(guid_text(g)),
                None => None,
            },
    {
        match self.parent_node_guid {
            Some(g) => Some(guid_u64_to_string(g)),
            None => None,
        }
    }

    /// Getter for [`socket_kind`]
    pub fn socket_kind(&self) -> (r: Option<u32>)
        ensures
            r == self@.socket_kind,
    {
        self.socket_kind
    }

    /// Getter for [`completion_id`]
    pub fn completion_id(&self) -> (r: Option<u64>)
        ensures
            r == self@.completion_id,
    {
        self.completion_id
    }
}

/// Reads eight bytes in the machine's byte order.
pub fn byte_vector_to_u64(bytes: &[u8]) -> (r: u64)
    requires
        bytes@.len() == 8,
    ensures
        ne_u64(bytes@, r),
{
    let le = u64_from_le_bytes(bytes);
    proof {
        lemma_auto_spec_u64_to_from_le_bytes();
        assert(spec_u64_to_le_bytes(le) == bytes@);
    }
    match Endianness::get_system_endianness() {
        Endianness::LittleEndian => le,
        Endianness::BigEndian => swap_bytes_u64(le),
    }
}

/// Calls `String::from_utf8` on a copy of the bytes; its error (the bytes are
/// not UTF-8) is mapped to `None`.
#[verifier::external_body]
fn string_from_utf8(bytes: &[u8]) -> (r: Option<String>)
    ensures
        r is Some <==> valid_utf8(bytes@),
        r matches Some(s) ==> s@ == decode_utf8(bytes@),
{
    String::from_utf8(bytes.to_vec()).ok()
}

/// `s` without its leading NUL characters.
pub open spec fn trim_start_nul(s: Seq<char>) -> Seq<char>
    decreases s.len(),
{
    if s.len() > 0 && s[0] == '\0' {
        trim_start_nul(s.drop_first())
    } else {
        s
    }
}

/// `s` without its trailing NUL characters.
pub open spec fn trim_end_nul(s: Seq<char>) -> Seq<char>
    decreases s.len(),
{
    if s.len() > 0 && s.last() == '\0' {
        trim_end_nul(s.drop_last())
    } else {
        s
    }
}

/// The text of UTF-8 bytes without the NUL characters at either end.
pub fn bytes_to_string(bytes: &[u8]) -> (r: String)
    requires
        valid_utf8(bytes@),
    ensures
        r@ == payload_text(bytes@),
{
    let full = string_from_utf8(bytes).unwrap();
    let c = str_chars(full.as_str());
    let ghost t = decode_utf8(bytes@);
    let n = c.len();
    let mut i: usize = 0;
    assert(t.skip(0) =~= t);
    while i < n && c[i] == '\0'
        invariant
            n == c@.len(),
            c@ == t,
            i <= n,
            trim_start_nul(t) == trim_start_nul(t.skip(i as int)),
        decreases n - i,
    {
        assert(t.skip(i as int).drop_first() =~= t.skip(i as int + 1));
        i = i + 1;
    }
    assert(trim_start_nul(t.skip(i as int)) == t.skip(i as int));
    let mut j: usize = n;
    while j > i && c[j - 1] == '\0'
        invariant
            n == c@.len(),
            c@ == t,
            i <= j <= n,
            trim_end_nul(t.skip(i as int)) == trim_end_nul(t.subrange(i as int, j as int)),
        decreases j,
    {
        assert(t.subrange(i as int, j as int).drop_last() =~= t.subrange(i as int, j as int - 1));
        j = j - 1;
    }
    assert(t.skip(i as int) =~= t.subrange(i as int, n as int));
    assert(trim_end_nul(t.subrange(i as int, j as int)) == t.subrange(i as int, j as int));
    let mut out = String::new();
    let mut k: usize = i;
    while k < j
        invariant
            n == c@.len(),
            c@ == t,
            i <= k <= j <= n,
            out@ == t.subrange(i as int, k as int),
        decreases j - k,
    {
        string_push(&mut out, c[k]);
        assert(out@ =~= t.subrange(i as int, k as int + 1));
        k = k + 1;
    }
    out
}

} // verus!
