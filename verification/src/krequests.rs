//! Simpler abstractions over incoming kernel requests.

use vstd::prelude::*;
use crate::ocp::{OveyOperation, OveyAttribute};
use crate::ocp_recv::{OcpAttr, attrs_view, ne_u64, ne_u32, nl_u64, nl_u32};
use crate::coordinator::state::{first_index, lemma_first_index_is, lemma_first_index_none, lemma_first_index_some};

verus! {

/// What the kernel asks the daemon for.
#[derive(Debug, Clone, Copy, PartialEq, Eq, Structural)]
pub enum KRequest {
    /// The kernel sends this request if it wants the daemon to resolve a specific completion
    /// inside the kernel. This is mainly interesting during development since there is no
    /// real useful payload attached to this.
    ResolveCompletion { id: u64 },
    /// The kernel sends this request to store a virtualized port lid.
    StoreVirtPortLid { id: u64, real_lid: u32, virt_lid: u32 },
    /// The kernel sends this to show the daemon the module is unloading. Especially helpful
    /// during development.
    ShutdownDaemon,
}

/// The payload of the first attribute of type `k`.
pub open spec fn first_payload(a: Seq<(OveyAttribute, Seq<u8>)>, k: OveyAttribute) -> Option<Seq<u8>> {
    match first_index(a, |x: (OveyAttribute, Seq<u8>)| x.0 == k) {
        Some(i) => Some(a[i].1),
        None => None,
    }
}

/// The first attribute of type `k` exists and holds `n` bytes.
pub open spec fn has_payload_of_len(a: Seq<(OveyAttribute, Seq<u8>)>, k: OveyAttribute, n: nat) -> bool {
    first_payload(a, k) matches Some(p) && p.len() == n
}

/// Whether a kernel request with operation `cmd` and attributes `a` can be
/// read: it is one of the requests the kernel sends, it carries a completion id
/// where it needs one, and a port LID request carries both property values.
pub open spec fn krequest_decodes(cmd: OveyOperation, a: Seq<(OveyAttribute, Seq<u8>)>) -> bool {
    match cmd {
        OveyOperation::ResolveCompletion => has_payload_of_len(a, OveyAttribute::CompletionId, 8),
        OveyOperation::KernelModuleBye => true,
        OveyOperation::StoreVirtPropertyPortLid => {
            &&& has_payload_of_len(a, OveyAttribute::CompletionId, 8)
            &&& has_payload_of_len(a, OveyAttribute::VirtPropertyU32, 4)
            &&& has_payload_of_len(a, OveyAttribute::RealPropertyU32, 4)
        },
        _ => false,
    }
}

/// The request read from operation `cmd` and attributes `a`: numbers come from
/// the first attribute of their type.
pub open spec fn krequest_from(cmd: OveyOperation, a: Seq<(OveyAttribute, Seq<u8>)>, r: KRequest) -> bool {
    match cmd {
        OveyOperation::ResolveCompletion => r matches KRequest::ResolveCompletion { id } && ne_u64(
            first_payload(a, OveyAttribute::CompletionId)->0,
            id,
        ),
        OveyOperation::KernelModuleBye => r == KRequest::ShutdownDaemon,
        _ => r matches KRequest::StoreVirtPortLid { id, real_lid, virt_lid } && ne_u64(
            first_payload(a, OveyAttribute::CompletionId)->0,
            id,
        ) && ne_u32(first_payload(a, OveyAttribute::RealPropertyU32)->0, real_lid) && ne_u32(
            first_payload(a, OveyAttribute::VirtPropertyU32)->0,
            virt_lid,
        ),
    }
}

/// The position of the first attribute of type `k`.
pub fn find_attr(attrs: &[OcpAttr], k: OveyAttribute) -> (r: Option<usize>)
    ensures
        match r {
            Some(i) => first_index(attrs_view(attrs@), |x: (OveyAttribute, Seq<u8>)| x.0 == k) == Some(
                i as int,
            ),
            None => first_index(attrs_view(attrs@), |x: (OveyAttribute, Seq<u8>)| x.0 == k) is None,
        },
{
    let ghost av = attrs_view(attrs@);
    let mut i: usize = 0;
    while i < attrs.len()
        invariant
            i <= attrs@.len(),
            av == attrs_view(attrs@),
            forall|j: int| 0 <= j < i ==> (#[trigger] av[j]).0 != k,
        decreases attrs@.len() - i,
    {
        assert(av[i as int] == attrs@[i as int]@);
        if attrs[i].kind == k {
            proof {
                lemma_first_index_is(av, |x: (OveyAttribute, Seq<u8>)| x.0 == k, i as int);
            }
            return Some(i);
        }
        i = i + 1;
    }
    proof {
        lemma_first_index_none(av, |x: (OveyAttribute, Seq<u8>)| x.0 == k);
    }
    None
}

/// Whether the first attribute of type `k` exists and holds `n` bytes.
fn payload_has_len(attrs: &[OcpAttr], k: OveyAttribute, n: usize) -> (r: bool)
    ensures
        r == has_payload_of_len(attrs_view(attrs@), k, n as nat),
{
    match find_attr(attrs, k) {
        Some(i) => {
            proof {
                lemma_first_index_some(attrs_view(attrs@), |x: (OveyAttribute, Seq<u8>)| x.0 == k);
            }
            assert(attrs_view(attrs@)[i as int] == attrs@[i as int]@);
            attrs[i].payload.len() == n
        },
        None => false,
    }
}

/// The number held by the first attribute of type `k`, which holds eight bytes.
fn first_u64(attrs: &[OcpAttr], k: OveyAttribute) -> (r: u64)
    requires
        has_payload_of_len(attrs_view(attrs@), k, 8),
    ensures
        ne_u64(first_payload(attrs_view(attrs@), k)->0, r),
{
    let i = find_attr(attrs, k).unwrap();
    proof {
        lemma_first_index_some(attrs_view(attrs@), |x: (OveyAttribute, Seq<u8>)| x.0 == k);
    }
    assert(attrs_view(attrs@)[i as int] == attrs@[i as int]@);
    nl_u64(attrs[i].payload.as_slice()).unwrap()
}

/// The number held by the first attribute of type `k`, which holds four bytes.
fn first_u32(attrs: &[OcpAttr], k: OveyAttribute) -> (r: u32)
    requires
        has_payload_of_len(attrs_view(attrs@), k, 4),
    ensures
        ne_u32(first_payload(attrs_view(attrs@), k)->0, r),
{
    let i = find_attr(attrs, k).unwrap();
    proof {
        lemma_first_index_some(attrs_view(attrs@), |x: (OveyAttribute, Seq<u8>)| x.0 == k);
    }
    assert(attrs_view(attrs@)[i as int] == attrs@[i as int]@);
    nl_u32(attrs[i].payload.as_slice()).unwrap()
}

/// The completion id of a request.
pub fn get_completion_id(attrs: &[OcpAttr]) -> (r: u64)
    requires
        has_payload_of_len(attrs_view(attrs@), OveyAttribute::CompletionId, 8),
    ensures
        ne_u64(first_payload(attrs_view(attrs@), OveyAttribute::CompletionId)->0, r),
{
    first_u64(attrs, OveyAttribute::CompletionId)
}

/// First is real, second is virt.
pub fn get_virt_real_u32_value_pair(attrs: &[OcpAttr]) -> (r: (u32, u32))
    requires
        has_payload_of_len(attrs_view(attrs@), OveyAttribute::VirtPropertyU32, 4),
        has_payload_of_len(attrs_view(attrs@), OveyAttribute::RealPropertyU32, 4),
    ensures
        ne_u32(first_payload(attrs_view(attrs@), OveyAttribute::RealPropertyU32)->0, r.0),
        ne_u32(first_payload(attrs_view(attrs@), OveyAttribute::VirtPropertyU32)->0, r.1),
{
    let virt_prop = first_u32(attrs, OveyAttribute::VirtPropertyU32);
    let real_prop = first_u32(attrs, OveyAttribute::RealPropertyU32);
    (real_prop, virt_prop)
}

impl KRequest {
    /// Reads the request the kernel sent with operation `cmd` and attributes `attrs`.
    pub fn from_message(cmd: OveyOperation, attrs: &[OcpAttr]) -> (r: KRequest)
        requires
            krequest_decodes(cmd, attrs_view(attrs@)),
        ensures
            krequest_from(cmd, attrs_view(attrs@), r),
    {
        match cmd {
            OveyOperation::ResolveCompletion => {
                KRequest::ResolveCompletion { id: get_completion_id(attrs) }
            },
            OveyOperation::KernelModuleBye => KRequest::ShutdownDaemon,
            _ => {
                let props = get_virt_real_u32_value_pair(attrs);
                KRequest::StoreVirtPortLid {
                    id: get_completion_id(attrs),
                    real_lid: props.0,
                    virt_lid: props.1,
                }
            },
        }
    }

    /// Whether a request with operation `cmd` and attributes `attrs` can be read
    /// (see `from_message`).
    pub fn message_decodes(cmd: OveyOperation, attrs: &[OcpAttr]) -> (r: bool)
        ensures
            r == krequest_decodes(cmd, attrs_view(attrs@)),
    {
        match cmd {
            OveyOperation::ResolveCompletion => payload_has_len(attrs, OveyAttribute::CompletionId, 8),
            OveyOperation::KernelModuleBye => true,
            OveyOperation::StoreVirtPropertyPortLid => payload_has_len(
                attrs,
                OveyAttribute::CompletionId,
                8,
            ) && payload_has_len(attrs, OveyAttribute::VirtPropertyU32, 4) && payload_has_len(
                attrs,
                OveyAttribute::RealPropertyU32,
                4,
            ),
            _ => false,
        }
    }

    /// Convenient getter for the completion id aka request id.
    pub fn id(&self) -> (r: u64)
        requires
            !(*self is ShutdownDaemon),
        ensures
            *self matches KRequest::ResolveCompletion { id } ==> r == id,
            *self matches KRequest::StoreVirtPortLid { id, .. } ==> r == id,
    {
        match self {
            KRequest::ResolveCompletion { id } => *id,
            KRequest::StoreVirtPortLid { id, .. } => *id,
            KRequest::ShutdownDaemon => vstd::pervasive::unreached(),
        }
    }

    /// Convenient getter for the Ovey Operation that created/represents this Kernel requests.
    pub fn op(&self) -> (r: OveyOperation)
        ensures
            r == krequest_op(*self),
    {
        match self {
            KRequest::ResolveCompletion { .. } => OveyOperation::ResolveCompletion,
            KRequest::StoreVirtPortLid { .. } => OveyOperation::StoreVirtPropertyPortLid,
            KRequest::ShutdownDaemon => OveyOperation::KernelModuleBye,
        }
    }
}

/// The operation that represents a request.
pub open spec fn krequest_op(r: KRequest) -> OveyOperation {
    match r {
        KRequest::ResolveCompletion { .. } => OveyOperation::ResolveCompletion,
        KRequest::StoreVirtPortLid { .. } => OveyOperation::StoreVirtPropertyPortLid,
        KRequest::ShutdownDaemon => OveyOperation::KernelModuleBye,
    }
}

/// A request read from a message is represented by the operation of that
/// message, and it has a completion id unless it is the shutdown notice.
pub proof fn law_krequest_op(cmd: OveyOperation, a: Seq<(OveyAttribute, Seq<u8>)>, r: KRequest)
    requires
        krequest_decodes(cmd, a),
        krequest_from(cmd, a, r),
    ensures
        krequest_op(r) == cmd,
        !(r is ShutdownDaemon) <==> cmd != OveyOperation::KernelModuleBye,
{
}

} // verus!
