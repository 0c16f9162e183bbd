//! Common types exchanged between the Ovey daemon and the coordinator.

use vstd::prelude::*;
use vstd::bytes::spec_u64_to_le_bytes;
use byteorder::{BigEndian, WriteBytesExt};
use crate::text::{hex_char, string_push};
use crate::guid::hex_char_exec;
use crate::urls::{
    ROUTE_GUIDS_DEVICE, ROUTE_GIDS_PORT, ROUTE_GIDS_ALL, ROUTE_PORTS_DEVICE, ROUTE_PORTS_ONE,
    ROUTE_QPS_DEVICE,
};

verus! {

/// An InfiniBand global identifier: a 64-bit subnet prefix and a 64-bit
/// interface id.
#[derive(Debug, Clone, Copy, PartialEq, Eq, Structural)]
pub struct Gid {
    pub subnet_prefix: u64,
    pub interface_id: u64,
}

/// The eight bytes of `x`, most significant first.
pub open spec fn be_bytes(x: u64) -> Seq<u8> {
    spec_u64_to_le_bytes(x).reverse()
}

/// `{:01x}` of a byte: its hexadecimal digits without leading zeros.
pub open spec fn byte_hex_text(b: u8) -> Seq<char> {
    if b < 16 {
        seq![hex_char(b as nat)]
    } else {
        seq![hex_char((b / 16) as nat), hex_char((b % 16) as nat)]
    }
}

/// The text of a byte string where each byte is written as `{:01x}` and a ':'
/// stands before every fourth byte (but the first).
pub open spec fn grouped_bytes_text(bs: Seq<u8>) -> Seq<char>
    decreases bs.len(),
{
    if bs.len() == 0 {
        Seq::empty()
    } else {
        let i = bs.len() - 1;
        let sep = if i > 0 && i % 4 == 0 {
            seq![':']
        } else {
            Seq::empty()
        };
        grouped_bytes_text(bs.drop_last()) + sep + byte_hex_text(bs.last())
    }
}

/// The display text of a GID: its sixteen big-endian bytes, grouped by four.
pub open spec fn gid_text(g: Gid) -> Seq<char> {
    grouped_bytes_text(be_bytes(g.subnet_prefix) + be_bytes(g.interface_id))
}

/// Calls `WriteBytesExt::write_u64::<BigEndian>` of the byteorder crate on a
/// `Vec<u8>`, which appends the eight bytes of `x`, most significant first
/// (writing to a vector does not fail).
#[verifier::external_body]
fn write_u64_be(buf: &mut Vec<u8>, x: u64)
    ensures
        final(buf)@ == old(buf)@ + be_bytes(x),
{
    buf.write_u64::<BigEndian>(x).unwrap()
}

/// Asks the coordinator for a virtual GUID for a device.
#[derive(Debug, Clone, Copy, PartialEq, Eq, Structural)]
pub struct LeaseDeviceQuery {
    pub guid: u64,
}

/// The virtual GUID leased to a device.
#[derive(Debug, Clone, Copy, PartialEq, Eq, Structural)]
pub struct LeaseDeviceResp {
    pub guid: u64,
}

/// Asks the coordinator for a virtual GID for the real GID `gid` at table index `idx`.
#[derive(Debug, Clone, Copy, PartialEq, Eq, Structural)]
pub struct LeaseGidQuery {
    pub idx: u32,
    pub gid: Gid,
}

/// The virtual GID leased for a real one.
#[derive(Debug, Clone, Copy, PartialEq, Eq, Structural)]
pub struct LeaseGidResp {
    pub idx: u32,
    pub gid: Gid,
}

/// Asks the coordinator to resolve a virtual GID and QP number.
#[derive(Debug, Clone, Copy, PartialEq, Eq, Structural)]
pub struct ResolveQpGidQuery {
    pub gid: Gid,
    pub qpn: u32,
}

/// The real GID and QP number behind a virtual pair.
#[derive(Debug, Clone, Copy, PartialEq, Eq, Structural)]
pub struct ResolveQpGidResp {
    pub gid: Gid,
    pub qpn: u32,
}

/// Asks the coordinator to remember a virtual-to-real GID translation.
#[derive(Debug, Clone, Copy, PartialEq, Eq, Structural)]
pub struct SetGidQuery {
    pub real_idx: u32,
    pub virt_idx: u32,
    pub virt: Gid,
    pub real: Gid,
}

/// The translation the coordinator remembered.
#[derive(Debug, Clone, Copy, PartialEq, Eq, Structural)]
pub struct SetGidResp {
    pub virt_idx: u32,
    pub real_idx: u32,
    pub virt: Gid,
    pub real: Gid,
}

/// Asks the coordinator to register a port of a device.
#[derive(Debug, Clone, Copy, PartialEq, Eq, Structural)]
pub struct CreatePortQuery {
    pub port: u16,
    pub pkey_tbl_len: u32,
    pub gid_tbl_len: u32,
    pub core_cap_flags: u32,
    pub max_mad_size: u32,
}

/// The virtual port the coordinator registered.
#[derive(Debug, Clone, Copy, PartialEq, Eq, Structural)]
pub struct CreatePortResp {
    pub port: u16,
    pub pkey_tbl_len: u32,
    pub gid_tbl_len: u32,
    pub core_cap_flags: u32,
    pub max_mad_size: u32,
}

/// Asks the coordinator for a virtual LID for the real LID `lid` of a port.
#[derive(Debug, Clone, Copy, PartialEq, Eq, Structural)]
pub struct SetPortAttrQuery {
    pub lid: u32,
}

/// The virtual LID of a port.
#[derive(Debug, Clone, Copy, PartialEq, Eq, Structural)]
pub struct SetPortAttrResp {
    pub lid: u32,
}

/// Asks the coordinator for a virtual QP number for the real one `qpn`.
#[derive(Debug, Clone, Copy, PartialEq, Eq, Structural)]
pub struct CreateQpQuery {
    pub qpn: u32,
}

/// The virtual QP number.
#[derive(Debug, Clone, Copy, PartialEq, Eq, Structural)]
pub struct CreateQpResp {
    pub qpn: u32,
}

/// Asks the coordinator to resolve any of a virtual GID, LID and QP number.
#[derive(Debug, Clone, Copy, PartialEq, Eq, Structural)]
pub struct ResolveQpQuery {
    pub gid: Option<Gid>,
    pub lid: Option<u32>,
    pub qpn: Option<u32>,
}

/// The real addresses behind the virtual ones asked for.
#[derive(Debug, Clone, Copy, PartialEq, Eq, Structural)]
pub struct ResolveQpResp {
    pub gid: Option<Gid>,
    pub lid: Option<u32>,
    pub qpn: Option<u32>,
}

/// The reply to any daemon query.
#[derive(Debug, Clone, Copy, PartialEq, Eq, Structural)]
pub enum OveydCmdResp {
    LeaseDevice(LeaseDeviceResp),
    LeaseGid(LeaseGidResp),
    ResolveQpGid(ResolveQpGidResp),
    SetGid(SetGidResp),
    CreatePort(CreatePortResp),
    SetPortAttr(SetPortAttrResp),
    CreateQp(CreateQpResp),
}

/// A reply to a daemon request: its sequence number, the network (its UUID as
/// a number) and the reply itself.
#[derive(Debug, Clone, Copy, PartialEq, Eq, Structural)]
pub struct OveydResp {
    pub seq: u32,
    pub network: u128,
    pub cmd: OveydCmdResp,
}

impl Gid {
    /// A reserved address has interface ID set to zero and should not
    /// be used for addressing
    pub fn is_reserved(&self) -> (r: bool)
        ensures
            r == (self.interface_id == 0),
    {
        self.interface_id == 0
    }

    /// A loopback address has interface ID set to ::1 and should not
    /// be used for virtualisation by the coordinator
    pub fn is_loopback(&self) -> (r: bool)
        ensures
            r == (self.interface_id == 1),
    {
        self.interface_id == 1
    }

    /// The display text of this GID: its sixteen big-endian bytes, each as
    /// `{:01x}`, with a ':' before every fourth byte.
    pub fn to_string(&self) -> (r: String)
        ensures
            r@ == gid_text(*self),
    {
        let mut wtr: Vec<u8> = Vec::new();
        write_u64_be(&mut wtr, self.subnet_prefix);
        write_u64_be(&mut wtr, self.interface_id);
        let ghost bytes = wtr@;
        let mut s = String::new();
        let mut i: usize = 0;
        while i < wtr.len()
            invariant
                i <= wtr@.len(),
                wtr@ == bytes,
                s@ == grouped_bytes_text(bytes.subrange(0, i as int)),
            decreases wtr@.len() - i,
        {
            let ghost prefix = bytes.subrange(0, i as int + 1);
            assert(prefix.drop_last() =~= bytes.subrange(0, i as int));
            if i > 0 && i % 4 == 0 {
                string_push(&mut s, ':');
            }
            let w = wtr[i];
            if w < 16 {
                string_push(&mut s, hex_char_exec(w as u64));
            } else {
                string_push(&mut s, hex_char_exec((w / 16) as u64));
                string_push(&mut s, hex_char_exec((w % 16) as u64));
            }
            assert(s@ =~= grouped_bytes_text(prefix));
            i = i + 1;
        }
        assert(bytes.subrange(0, bytes.len() as int) =~= bytes);
        s
    }
}

/// The HTTP method a daemon query is sent with.
#[derive(Debug, Clone, Copy, PartialEq, Eq, Structural)]
pub enum HttpMethod {
    Get,
    Post,
    Put,
}

impl LeaseDeviceQuery {
    pub fn method(&self) -> (r: HttpMethod)
        ensures
            r == HttpMethod::Post,
    {
        HttpMethod::Post
    }

    /// Endpoint at the coordinator that processes the query
    pub fn endpoint(&self) -> (r: &'static str)
        ensures
            r@ == ROUTE_GUIDS_DEVICE@,
    {
        ROUTE_GUIDS_DEVICE
    }
}

impl LeaseGidQuery {
    pub fn method(&self) -> (r: HttpMethod)
        ensures
            r == HttpMethod::Post,
    {
        HttpMethod::Post
    }

    /// Endpoint at the coordinator that processes the query
    pub fn endpoint(&self) -> (r: &'static str)
        ensures
            r@ == ROUTE_GIDS_PORT@,
    {
        ROUTE_GIDS_PORT
    }
}

impl ResolveQpGidQuery {
    pub fn method(&self) -> (r: HttpMethod)
        ensures
            r == HttpMethod::Get,
    {
        HttpMethod::Get
    }

    /// Endpoint at the coordinator that processes the query
    pub fn endpoint(&self) -> (r: &'static str)
        ensures
            r@ == ROUTE_GIDS_ALL@,
    {
        ROUTE_GIDS_ALL
    }
}

impl SetGidQuery {
    pub fn method(&self) -> (r: HttpMethod)
        ensures
            r == HttpMethod::Put,
    {
        HttpMethod::Put
    }

    /// Endpoint at the coordinator that processes the query
    pub fn endpoint(&self) -> (r: &'static str)
        ensures
            r@ == ROUTE_GIDS_PORT@,
    {
        ROUTE_GIDS_PORT
    }
}

impl CreatePortQuery {
    pub fn method(&self) -> (r: HttpMethod)
        ensures
            r == HttpMethod::Post,
    {
        HttpMethod::Post
    }

    /// Endpoint at the coordinator that processes the query
    pub fn endpoint(&self) -> (r: &'static str)
        ensures
            r@ == ROUTE_PORTS_DEVICE@,
    {
        ROUTE_PORTS_DEVICE
    }
}

impl SetPortAttrQuery {
    pub fn method(&self) -> (r: HttpMethod)
        ensures
            r == HttpMethod::Post,
    {
        HttpMethod::Post
    }

    /// Endpoint at the coordinator that processes the query
    pub fn endpoint(&self) -> (r: &'static str)
        ensures
            r@ == ROUTE_PORTS_ONE@,
    {
        ROUTE_PORTS_ONE
    }
}

impl CreateQpQuery {
    pub fn method(&self) -> (r: HttpMethod)
        ensures
            r == HttpMethod::Post,
    {
        HttpMethod::Post
    }

    /// Endpoint at the coordinator that processes the query
    pub fn endpoint(&self) -> (r: &'static str)
        ensures
            r@ == ROUTE_QPS_DEVICE@,
    {
        ROUTE_QPS_DEVICE
    }
}

} // verus!
