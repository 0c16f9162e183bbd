//! Requests the daemon sends to the kernel module via OCP: the attributes of
//! each request, as types and payload bytes. Strings travel NUL-terminated;
//! GUIDs travel in the kernel's big-endian order.

use vstd::prelude::*;
use vstd::bytes::{
    spec_u64_to_le_bytes, spec_u32_to_le_bytes, u64_to_le_bytes, lemma_auto_spec_u64_to_from_le_bytes,
};
use vstd::utf8::{
    encode_utf8, decode_utf8, encode_scalar, encode_utf8_decode_utf8, encode_utf8_valid_utf8,
};
use crate::ocp::{OveyAttribute, OcpSocketKind, socket_kind_number};
use crate::ocp_recv::{
    OcpAttr, attrs_view, be_u64, payload_text, trim_start_nul, trim_end_nul, string_field,
    guid_field, last_payload,
};
use crate::endianness::{Endianness, swap_bytes64};

verus! {

/// The payload of a string attribute: the string's UTF-8 bytes and a closing
/// NUL byte.
pub open spec fn str_payload(s: Seq<char>) -> Seq<u8> {
    encode_utf8(s).push(0u8)
}

/// The eight bytes of `x` in big-endian order, most significant first.
pub open spec fn be_bytes(x: u64) -> Seq<u8> {
    spec_u64_to_le_bytes(x).reverse()
}

/// Calls `neli::utils::serialize` (unaligned) on a string. neli's `Nl` impl for
/// `&str` writes the string's bytes and then one NUL byte into a buffer of
/// exactly that size, which does not fail; an error would give an empty payload.
#[verifier::external_body]
fn nl_str_payload(s: &str) -> (r: Vec<u8>)
    ensures
        r@ == str_payload(s@),
{
    neli::utils::serialize(&s, false).unwrap_or_default()
}

/// Writes the bytes of `x` in the order of a machine of byte order `e`.
fn native_bytes(e: Endianness, x: u64) -> (r: Vec<u8>)
    ensures
        r@ == (match e {
            Endianness::LittleEndian => spec_u64_to_le_bytes(x),
            Endianness::BigEndian => spec_u64_to_le_bytes(x).reverse(),
        }),
{
    let le = u64_to_le_bytes(x);
    match e {
        Endianness::LittleEndian => le,
        Endianness::BigEndian => {
            let mut rev: Vec<u8> = Vec::new();
            let mut i: usize = 8;
            proof {
                lemma_auto_spec_u64_to_from_le_bytes();
            }
            while i > 0
                invariant
                    i <= 8,
                    le@.len() == 8,
                    rev@ =~= le@.subrange(i as int, 8).reverse(),
                decreases i,
            {
                i = i - 1;
                rev.push(le[i]);
                assert(rev@ =~= le@.subrange(i as int, 8).reverse());
            }
            assert(le@.subrange(0, 8) =~= le@);
            rev
        },
    }
}

/// The payload of a GUID attribute: the host-order GUID is converted to
/// big-endian order and written in the machine's byte order, which on either
/// kind of machine gives its bytes most significant first.
pub fn guid_payload(guid_he: u64) -> (r: Vec<u8>)
    ensures
        r@ == be_bytes(guid_he),
{
    let e = Endianness::get_system_endianness();
    let guid_be = e.host_to_be(guid_he);
    proof {
        lemma_auto_spec_u64_to_from_le_bytes();
        let s = spec_u64_to_le_bytes(guid_he);
        assert(s.reverse().len() == 8);
        assert(spec_u64_to_le_bytes(swap_bytes64(guid_he)) == s.reverse());
        assert(s.reverse().reverse() =~= s);
    }
    native_bytes(e, guid_be)
}

/// A string attribute.
fn str_attr(kind: OveyAttribute, s: &str) -> (r: OcpAttr)
    ensures
        r@ == (kind, str_payload(s@)),
{
    OcpAttr { kind: kind, payload: nl_str_payload(s) }
}

/// The attributes of a request that creates a device in the kernel module: its
/// name, the name of its parent device, its GUID (given in host order) and the
/// UUID of its virtual network.
pub fn create_device_request(
    device_name: &str,
    parent_device_name: &str,
    node_guid_he: u64,
    network_uuid_str: &str,
) -> (r: Vec<OcpAttr>)
    ensures
        attrs_view(r@) == seq![
            (OveyAttribute::DeviceName, str_payload(device_name@)),
            (OveyAttribute::ParentDeviceName, str_payload(parent_device_name@)),
            (OveyAttribute::NodeGuid, be_bytes(node_guid_he)),
            (OveyAttribute::VirtNetUuidStr, str_payload(network_uuid_str@)),
        ],
{
    let mut r: Vec<OcpAttr> = Vec::new();
    r.push(str_attr(OveyAttribute::DeviceName, device_name));
    r.push(str_attr(OveyAttribute::ParentDeviceName, parent_device_name));
    r.push(OcpAttr { kind: OveyAttribute::NodeGuid, payload: guid_payload(node_guid_he) });
    r.push(str_attr(OveyAttribute::VirtNetUuidStr, network_uuid_str));
    assert(attrs_view(r@) =~= seq![
        (OveyAttribute::DeviceName, str_payload(device_name@)),
        (OveyAttribute::ParentDeviceName, str_payload(parent_device_name@)),
        (OveyAttribute::NodeGuid, be_bytes(node_guid_he)),
        (OveyAttribute::VirtNetUuidStr, str_payload(network_uuid_str@)),
    ]);
    r
}

/// The attributes of a request that names one device: its name. The kernel
/// module's requests to delete a device and to describe it take this form.
pub fn device_name_request(device_name: &str) -> (r: Vec<OcpAttr>)
    ensures
        attrs_view(r@) == seq![(OveyAttribute::DeviceName, str_payload(device_name@))],
{
    let mut r: Vec<OcpAttr> = Vec::new();
    r.push(str_attr(OveyAttribute::DeviceName, device_name));
    assert(attrs_view(r@) =~= seq![(OveyAttribute::DeviceName, str_payload(device_name@))]);
    r
}

/// `p` holds the four bytes of `x` in the order of one of the two kinds of
/// machine.
pub open spec fn native_bytes32(x: u32, p: Seq<u8>) -> bool {
    p == spec_u32_to_le_bytes(x) || p == spec_u32_to_le_bytes(x).reverse()
}

/// `p` holds the eight bytes of `x` in the order of one of the two kinds of
/// machine.
pub open spec fn native_bytes64(x: u64, p: Seq<u8>) -> bool {
    p == spec_u64_to_le_bytes(x) || p == spec_u64_to_le_bytes(x).reverse()
}

/// Calls `neli::utils::serialize` (unaligned) on a `u32`, which neli writes in
/// the machine's byte order into a buffer of exactly four bytes (this does not
/// fail; an error would give an empty payload). Which order applies depends on
/// the machine, so the contract states only that it is one of the two.
#[verifier::external_body]
fn nl_u32_payload(x: u32) -> (r: Vec<u8>)
    ensures
        native_bytes32(x, r@),
{
    neli::utils::serialize(&x, false).unwrap_or_default()
}

/// Calls `neli::utils::serialize` (unaligned) on a `u64`, which neli writes in
/// the machine's byte order into a buffer of exactly eight bytes (this does not
/// fail; an error would give an empty payload). Which order applies depends on
/// the machine, so the contract states only that it is one of the two.
#[verifier::external_body]
fn nl_u64_payload(x: u64) -> (r: Vec<u8>)
    ensures
        native_bytes64(x, r@),
{
    neli::utils::serialize(&x, false).unwrap_or_default()
}

/// The attributes by which the daemon tells the kernel module that one of its
/// two sockets is there (or is going away): the socket's kind, as a number.
pub fn socket_kind_request(kind: OcpSocketKind) -> (r: Vec<OcpAttr>)
    ensures
        r@.len() == 1,
        attrs_view(r@)[0].0 == OveyAttribute::SocketKind,
        native_bytes32(socket_kind_number(kind), attrs_view(r@)[0].1),
{
    let mut r: Vec<OcpAttr> = Vec::new();
    r.push(OcpAttr { kind: OveyAttribute::SocketKind, payload: nl_u32_payload(kind.number()) });
    r
}

/// The attributes of the daemon's answer that tells the kernel module to resolve
/// a completion: the completion's id.
pub fn resolve_completion_request(completion_id: u64) -> (r: Vec<OcpAttr>)
    ensures
        r@.len() == 1,
        attrs_view(r@)[0].0 == OveyAttribute::CompletionId,
        native_bytes64(completion_id, attrs_view(r@)[0].1),
{
    let mut r: Vec<OcpAttr> = Vec::new();
    r.push(OcpAttr { kind: OveyAttribute::CompletionId, payload: nl_u64_payload(completion_id) });
    r
}

/// The attributes of an echo request: the message to echo.
pub fn echo_request(echo_msg: &str) -> (r: Vec<OcpAttr>)
    ensures
        attrs_view(r@) == seq![(OveyAttribute::Msg, str_payload(echo_msg@))],
{
    let mut r: Vec<OcpAttr> = Vec::new();
    r.push(str_attr(OveyAttribute::Msg, echo_msg));
    assert(attrs_view(r@) =~= seq![(OveyAttribute::Msg, str_payload(echo_msg@))]);
    r
}

/// Encoding a text with a NUL character appended is encoding the text and
/// appending a NUL byte.
pub proof fn lemma_encode_utf8_push_nul(t: Seq<char>)
    ensures
        encode_utf8(t.push('\0')) == encode_utf8(t).push(0u8),
    decreases t.len(),
{
    let z: u32 = '\0' as u32;
    assert(z == 0);
    assert((z & 0x7F) as u8 == 0u8) by (bit_vector)
        requires
            z == 0,
    ;
    assert(encode_scalar(z) =~= seq![0u8]);
    if t.len() == 0 {
        let u = t.push('\0');
        assert(u.drop_first() =~= Seq::<char>::empty());
        assert(u[0] == '\0');
        assert(encode_utf8(Seq::<char>::empty()) == Seq::<u8>::empty());
        assert(encode_utf8(u) == encode_scalar(z) + encode_utf8(u.drop_first()));
        assert(encode_utf8(t) == Seq::<u8>::empty());
        assert(encode_utf8(u) =~= seq![0u8]);
    } else {
        assert(t.push('\0').drop_first() =~= t.drop_first().push('\0'));
        lemma_encode_utf8_push_nul(t.drop_first());
        assert(encode_utf8(t.push('\0')) =~= encode_utf8(t).push(0u8));
    }
}

/// A GUID written to the kernel and read back from it is the same GUID: the
/// bytes written in big-endian order are read as a big-endian number.
pub proof fn law_kernel_guid_round_trip(guid: u64)
    ensures
        be_u64(be_bytes(guid)) == guid,
{
    lemma_auto_spec_u64_to_from_le_bytes();
    let s = spec_u64_to_le_bytes(guid);
    assert(s.reverse().reverse() =~= s);
}

/// A string written to the kernel and read back from it is the same string,
/// where it has no NUL character at either end: the closing NUL byte is
/// dropped when it is read.
pub proof fn law_string_payload_round_trip(t: Seq<char>)
    requires
        t.len() > 0 ==> t[0] != '\0' && t.last() != '\0',
    ensures
        payload_text(str_payload(t)) == t,
{
    lemma_encode_utf8_push_nul(t);
    encode_utf8_decode_utf8(t.push('\0'));
    let u = t.push('\0');
    if t.len() == 0 {
        assert(u.drop_first() =~= t);
        assert(trim_start_nul(t) == t);
        assert(trim_end_nul(t) == t);
    } else {
        assert(trim_start_nul(u) == u);
        assert(u.drop_last() =~= t);
        assert(trim_end_nul(t) == t);
    }
}

/// What the kernel sends back in the attributes of a device-creation request
/// decodes to what was asked for: the GUID (in host order) and the names and
/// network UUID, where these have no NUL character at either end.
pub proof fn law_create_device_request_decodes(
    device_name: Seq<char>,
    parent_device_name: Seq<char>,
    node_guid_he: u64,
    network_uuid_str: Seq<char>,
)
    requires
        device_name.len() > 0 ==> device_name[0] != '\0' && device_name.last() != '\0',
        parent_device_name.len() > 0 ==> parent_device_name[0] != '\0' && parent_device_name.last()
            != '\0',
        network_uuid_str.len() > 0 ==> network_uuid_str[0] != '\0' && network_uuid_str.last()
            != '\0',
    ensures
        ({
            let a = seq![
                (OveyAttribute::DeviceName, str_payload(device_name)),
                (OveyAttribute::ParentDeviceName, str_payload(parent_device_name)),
                (OveyAttribute::NodeGuid, be_bytes(node_guid_he)),
                (OveyAttribute::VirtNetUuidStr, str_payload(network_uuid_str)),
            ];
            &&& guid_field(a, OveyAttribute::NodeGuid) == Some(node_guid_he)
            &&& string_field(a, OveyAttribute::DeviceName) == Some(device_name)
            &&& string_field(a, OveyAttribute::ParentDeviceName) == Some(parent_device_name)
            &&& string_field(a, OveyAttribute::VirtNetUuidStr) == Some(network_uuid_str)
        }),
{
    let a = seq![
        (OveyAttribute::DeviceName, str_payload(device_name)),
        (OveyAttribute::ParentDeviceName, str_payload(parent_device_name)),
        (OveyAttribute::NodeGuid, be_bytes(node_guid_he)),
        (OveyAttribute::VirtNetUuidStr, str_payload(network_uuid_str)),
    ];
    law_kernel_guid_round_trip(node_guid_he);
    law_string_payload_round_trip(device_name);
    law_string_payload_round_trip(parent_device_name);
    law_string_payload_round_trip(network_uuid_str);
    assert(a.drop_last() =~= seq![
        (OveyAttribute::DeviceName, str_payload(device_name)),
        (OveyAttribute::ParentDeviceName, str_payload(parent_device_name)),
        (OveyAttribute::NodeGuid, be_bytes(node_guid_he)),
    ]);
    assert(a.drop_last().drop_last() =~= seq![
        (OveyAttribute::DeviceName, str_payload(device_name)),
        (OveyAttribute::ParentDeviceName, str_payload(parent_device_name)),
    ]);
    assert(a.drop_last().drop_last().drop_last() =~= seq![
        (OveyAttribute::DeviceName, str_payload(device_name)),
    ]);
    assert(a.drop_last().drop_last().drop_last().drop_last() =~= Seq::<(OveyAttribute, Seq<u8>)>::empty());
    reveal_with_fuel(last_payload, 5);
}

/// An echoed message decodes to the message sent, where it has no NUL
/// character at either end.
pub proof fn law_echo_message_decodes(msg: Seq<char>)
    requires
        msg.len() > 0 ==> msg[0] != '\0' && msg.last() != '\0',
    ensures
        string_field(seq![(OveyAttribute::Msg, str_payload(msg))], OveyAttribute::Msg) == Some(msg),
{
    law_string_payload_round_trip(msg);
    let a = seq![(OveyAttribute::Msg, str_payload(msg))];
    assert(a.drop_last() =~= Seq::<(OveyAttribute, Seq<u8>)>::empty());
}

} // verus!
