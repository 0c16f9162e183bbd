//! The Ovey Control Protocol (OCP): the generic-netlink operations and
//! attributes exchanged with the Ovey kernel module, and the decoding of the
//! messages the kernel sends.

use vstd::prelude::*;
use vstd::string::StringExecFns;
use crate::text::{hex_char, string_push};
use crate::guid::hex_char_exec;

verus! {

/// The name of the netlink family we want to connect with.
pub const FAMILY_NAME: &'static str = "rdma-ovey";

/// Names of Ovey devices.
pub const DEVICE_NAME_PATTERN: &'static str = "^ovey[0-9]+$";

/// Names of the devices an Ovey device can sit on.
pub const PARENT_DEVICE_NAME_PATTERN: &'static str = "^[A-z]+[0-9]+$";

/// The decimal digits of `n`, most significant first.
pub open spec fn decimal_text(n: nat) -> Seq<char>
    decreases n,
{
    if n < 10 {
        seq![hex_char(n)]
    } else {
        decimal_text(n / 10).push(hex_char(n % 10))
    }
}

/// Appends the decimal digits of `n` to `s`.
pub fn push_decimal(s: &mut String, n: u64)
    ensures
        final(s)@ == old(s)@ + decimal_text(n as nat),
    decreases n,
{
    if n >= 10 {
        push_decimal(s, n / 10);
    }
    string_push(s, hex_char_exec(n % 10));
    assert(final(s)@ =~= old(s)@ + decimal_text(n as nat));
}

/// What the kernel module is asked to do (or tells the daemon it does).
#[derive(Debug, Clone, Copy, PartialEq, Eq, Structural)]
pub enum OveyOperation {
    Unspec,
    Echo,
    CreateDevice,
    DeleteDevice,
    DebugRespondError,
    DeviceInfo,
    DaemonHello,
    DaemonBye,
    DebugInitiateRequest,
    ResolveCompletion,
    DebugResolveAllCompletions,
    KernelModuleBye,
    StoreVirtPropertyPortLid,
    /// A number that names no operation.
    UnrecognizedVariant(u8),
}

/// The operation a number on the wire stands for.
pub open spec fn operation_of(n: u8) -> OveyOperation {
    if n == 0 {
        OveyOperation::Unspec
    } else if n == 1 {
        OveyOperation::Echo
    } else if n == 2 {
        OveyOperation::CreateDevice
    } else if n == 3 {
        OveyOperation::DeleteDevice
    } else if n == 4 {
        OveyOperation::DebugRespondError
    } else if n == 5 {
        OveyOperation::DeviceInfo
    } else if n == 6 {
        OveyOperation::DaemonHello
    } else if n == 7 {
        OveyOperation::DaemonBye
    } else if n == 8 {
        OveyOperation::DebugInitiateRequest
    } else if n == 9 {
        OveyOperation::ResolveCompletion
    } else if n == 10 {
        OveyOperation::DebugResolveAllCompletions
    } else if n == 11 {
        OveyOperation::KernelModuleBye
    } else if n == 12 {
        OveyOperation::StoreVirtPropertyPortLid
    } else {
        OveyOperation::UnrecognizedVariant(n)
    }
}

/// The number on the wire of an operation.
pub open spec fn operation_number(op: OveyOperation) -> u8 {
    match op {
        OveyOperation::Unspec => 0,
        OveyOperation::Echo => 1,
        OveyOperation::CreateDevice => 2,
        OveyOperation::DeleteDevice => 3,
        OveyOperation::DebugRespondError => 4,
        OveyOperation::DeviceInfo => 5,
        OveyOperation::DaemonHello => 6,
        OveyOperation::DaemonBye => 7,
        OveyOperation::DebugInitiateRequest => 8,
        OveyOperation::ResolveCompletion => 9,
        OveyOperation::DebugResolveAllCompletions => 10,
        OveyOperation::KernelModuleBye => 11,
        OveyOperation::StoreVirtPropertyPortLid => 12,
        OveyOperation::UnrecognizedVariant(n) => n,
    }
}

/// The name an operation is displayed with.
pub open spec fn operation_name(op: OveyOperation) -> Seq<char> {
    match op {
        OveyOperation::Unspec => "Unspec"@,
        OveyOperation::Echo => "Echo"@,
        OveyOperation::CreateDevice => "CreateDevice"@,
        OveyOperation::DeleteDevice => "DeleteDevice"@,
        OveyOperation::DebugRespondError => "DebugRespondError"@,
        OveyOperation::DeviceInfo => "DeviceInfo"@,
        OveyOperation::DaemonHello => "DaemonHello"@,
        OveyOperation::DaemonBye => "DaemonBye"@,
        OveyOperation::DebugInitiateRequest => "DebugInitiateRequest"@,
        OveyOperation::ResolveCompletion => "ResolveCompletion"@,
        OveyOperation::DebugResolveAllCompletions => "DebugResolveAllCompletions"@,
        OveyOperation::KernelModuleBye => "KernelModuleBye"@,
        OveyOperation::StoreVirtPropertyPortLid => "StoreVirtPropertyPortLid"@,
        OveyOperation::UnrecognizedVariant(_) => "<unknown>"@,
    }
}

/// The display text of an operation, e.g. `OveyOperation::Echo(1)`.
pub open spec fn operation_text(op: OveyOperation) -> Seq<char> {
    "OveyOperation::"@ + operation_name(op) + "("@ + decimal_text(operation_number(op) as nat)
        + ")"@
}

impl OveyOperation {
    /// The operation a number on the wire stands for.
    pub fn from_number(n: u8) -> (r: OveyOperation)
        ensures
            r == operation_of(n),
    {
        if n == 0 {
            OveyOperation::Unspec
        } else if n == 1 {
            OveyOperation::Echo
        } else if n == 2 {
            OveyOperation::CreateDevice
        } else if n == 3 {
            OveyOperation::DeleteDevice
        } else if n == 4 {
            OveyOperation::DebugRespondError
        } else if n == 5 {
            OveyOperation::DeviceInfo
        } else if n == 6 {
            OveyOperation::DaemonHello
        } else if n == 7 {
            OveyOperation::DaemonBye
        } else if n == 8 {
            OveyOperation::DebugInitiateRequest
        } else if n == 9 {
            OveyOperation::ResolveCompletion
        } else if n == 10 {
            OveyOperation::DebugResolveAllCompletions
        } else if n == 11 {
            OveyOperation::KernelModuleBye
        } else if n == 12 {
            OveyOperation::StoreVirtPropertyPortLid
        } else {
            OveyOperation::UnrecognizedVariant(n)
        }
    }

    /// The number on the wire of this operation.
    pub fn number(&self) -> (r: u8)
        ensures
            r == operation_number(*self),
    {
        match self {
            OveyOperation::Unspec => 0,
            OveyOperation::Echo => 1,
            OveyOperation::CreateDevice => 2,
            OveyOperation::DeleteDevice => 3,
            OveyOperation::DebugRespondError => 4,
            OveyOperation::DeviceInfo => 5,
            OveyOperation::DaemonHello => 6,
            OveyOperation::DaemonBye => 7,
            OveyOperation::DebugInitiateRequest => 8,
            OveyOperation::ResolveCompletion => 9,
            OveyOperation::DebugResolveAllCompletions => 10,
            OveyOperation::KernelModuleBye => 11,
            OveyOperation::StoreVirtPropertyPortLid => 12,
            OveyOperation::UnrecognizedVariant(n) => *n,
        }
    }

    /// The name this operation is displayed with.
    pub fn name(&self) -> (r: &'static str)
        ensures
            r@ == operation_name(*self),
    {
        match self {
            OveyOperation::Unspec => "Unspec",
            OveyOperation::Echo => "Echo",
            OveyOperation::CreateDevice => "CreateDevice",
            OveyOperation::DeleteDevice => "DeleteDevice",
            OveyOperation::DebugRespondError => "DebugRespondError",
            OveyOperation::DeviceInfo => "DeviceInfo",
            OveyOperation::DaemonHello => "DaemonHello",
            OveyOperation::DaemonBye => "DaemonBye",
            OveyOperation::DebugInitiateRequest => "DebugInitiateRequest",
            OveyOperation::ResolveCompletion => "ResolveCompletion",
            OveyOperation::DebugResolveAllCompletions => "DebugResolveAllCompletions",
            OveyOperation::KernelModuleBye => "KernelModuleBye",
            OveyOperation::StoreVirtPropertyPortLid => "StoreVirtPropertyPortLid",
            OveyOperation::UnrecognizedVariant(_) => "<unknown>",
        }
    }

    /// The display text of this operation: its name and its number, e.g.
    /// `OveyOperation::Echo(1)`.
    pub fn to_string(&self) -> (r: String)
        ensures
            r@ == operation_text(*self),
    {
        let mut s = String::from_str("OveyOperation::");
        s.append(self.name());
        s.append("(");
        push_decimal(&mut s, self.number() as u64);
        s.append(")");
        s
    }
}

/// A value type of the generic-netlink messages of the protocol.
#[derive(Debug, Clone, Copy, PartialEq, Eq, Structural)]
pub enum OveyAttribute {
    Unspec,
    Msg,
    DeviceName,
    ParentDeviceName,
    NodeGuid,
    ParentNodeGuid,
    VirtNetUuidStr,
    SocketKind,
    CompletionId,
    VirtPropertyU32,
    RealPropertyU32,
    /// A number that names no attribute.
    UnrecognizedVariant(u16),
}

/// The attribute a number on the wire stands for.
pub open spec fn attribute_of(n: u16) -> OveyAttribute {
    if n == 0 {
        OveyAttribute::Unspec
    } else if n == 1 {
        OveyAttribute::Msg
    } else if n == 2 {
        OveyAttribute::DeviceName
    } else if n == 3 {
        OveyAttribute::ParentDeviceName
    } else if n == 4 {
        OveyAttribute::NodeGuid
    } else if n == 5 {
        OveyAttribute::ParentNodeGuid
    } else if n == 6 {
        OveyAttribute::VirtNetUuidStr
    } else if n == 7 {
        OveyAttribute::SocketKind
    } else if n == 8 {
        OveyAttribute::CompletionId
    } else if n == 9 {
        OveyAttribute::VirtPropertyU32
    } else if n == 10 {
        OveyAttribute::RealPropertyU32
    } else {
        OveyAttribute::UnrecognizedVariant(n)
    }
}

/// The number on the wire of an attribute.
pub open spec fn attribute_number(a: OveyAttribute) -> u16 {
    match a {
        OveyAttribute::Unspec => 0,
        OveyAttribute::Msg => 1,
        OveyAttribute::DeviceName => 2,
        OveyAttribute::ParentDeviceName => 3,
        OveyAttribute::NodeGuid => 4,
        OveyAttribute::ParentNodeGuid => 5,
        OveyAttribute::VirtNetUuidStr => 6,
        OveyAttribute::SocketKind => 7,
        OveyAttribute::CompletionId => 8,
        OveyAttribute::VirtPropertyU32 => 9,
        OveyAttribute::RealPropertyU32 => 10,
        OveyAttribute::UnrecognizedVariant(n) => n,
    }
}

/// The name an attribute is displayed with.
pub open spec fn attribute_name(a: OveyAttribute) -> Seq<char> {
    match a {
        OveyAttribute::Unspec => "Unspec"@,
        OveyAttribute::Msg => "Msg"@,
        OveyAttribute::DeviceName => "DeviceName"@,
        OveyAttribute::ParentDeviceName => "ParentDeviceName"@,
        OveyAttribute::NodeGuid => "NodeGuid"@,
        OveyAttribute::ParentNodeGuid => "ParentNodeGuid"@,
        OveyAttribute::VirtNetUuidStr => "VirtNetUuidStr"@,
        OveyAttribute::SocketKind => "SocketKind"@,
        OveyAttribute::CompletionId => "CompletionId"@,
        OveyAttribute::VirtPropertyU32 => "VirtPropertyU32"@,
        OveyAttribute::RealPropertyU32 => "RealPropertyU32"@,
        OveyAttribute::UnrecognizedVariant(_) => "<unknown>"@,
    }
}

/// The display text of an attribute, e.g. `OveyAttribute::Msg(1)`.
pub open spec fn attribute_text(a: OveyAttribute) -> Seq<char> {
    "OveyAttribute::"@ + attribute_name(a) + "("@ + decimal_text(attribute_number(a) as nat)
        + ")"@
}

impl OveyAttribute {
    /// The attribute a number on the wire stands for.
    pub fn from_number(n: u16) -> (r: OveyAttribute)
        ensures
            r == attribute_of(n),
    {
        if n == 0 {
            OveyAttribute::Unspec
        } else if n == 1 {
            OveyAttribute::Msg
        } else if n == 2 {
            OveyAttribute::DeviceName
        } else if n == 3 {
            OveyAttribute::ParentDeviceName
        } else if n == 4 {
            OveyAttribute::NodeGuid
        } else if n == 5 {
            OveyAttribute::ParentNodeGuid
        } else if n == 6 {
            OveyAttribute::VirtNetUuidStr
        } else if n == 7 {
            OveyAttribute::SocketKind
        } else if n == 8 {
            OveyAttribute::CompletionId
        } else if n == 9 {
            OveyAttribute::VirtPropertyU32
        } else if n == 10 {
            OveyAttribute::RealPropertyU32
        } else {
            OveyAttribute::UnrecognizedVariant(n)
        }
    }

    /// The number on the wire of this attribute.
    pub fn number(&self) -> (r: u16)
        ensures
            r == attribute_number(*self),
    {
        match self {
            OveyAttribute::Unspec => 0,
            OveyAttribute::Msg => 1,
            OveyAttribute::DeviceName => 2,
            OveyAttribute::ParentDeviceName => 3,
            OveyAttribute::NodeGuid => 4,
            OveyAttribute::ParentNodeGuid => 5,
            OveyAttribute::VirtNetUuidStr => 6,
            OveyAttribute::SocketKind => 7,
            OveyAttribute::CompletionId => 8,
            OveyAttribute::VirtPropertyU32 => 9,
            OveyAttribute::RealPropertyU32 => 10,
            OveyAttribute::UnrecognizedVariant(n) => *n,
        }
    }

    /// The name this attribute is displayed with.
    pub fn name(&self) -> (r: &'static str)
        ensures
            r@ == attribute_name(*self),
    {
        match self {
            OveyAttribute::Unspec => "Unspec",
            OveyAttribute::Msg => "Msg",
            OveyAttribute::DeviceName => "DeviceName",
            OveyAttribute::ParentDeviceName => "ParentDeviceName",
            OveyAttribute::NodeGuid => "NodeGuid",
            OveyAttribute::ParentNodeGuid => "ParentNodeGuid",
            OveyAttribute::VirtNetUuidStr => "VirtNetUuidStr",
            OveyAttribute::SocketKind => "SocketKind",
            OveyAttribute::CompletionId => "CompletionId",
            OveyAttribute::VirtPropertyU32 => "VirtPropertyU32",
            OveyAttribute::RealPropertyU32 => "RealPropertyU32",
            OveyAttribute::UnrecognizedVariant(_) => "<unknown>",
        }
    }

    /// The display text of this attribute: its name and its number, e.g.
    /// `OveyAttribute::Msg(1)`.
    pub fn to_string(&self) -> (r: String)
        ensures
            r@ == attribute_text(*self),
    {
        let mut s = String::from_str("OveyAttribute::");
        s.append(self.name());
        s.append("(");
        push_decimal(&mut s, self.number() as u64);
        s.append(")");
        s
    }
}

/// Which of a process's two sockets a message belongs to.
#[derive(Debug, Clone, Copy, PartialEq, Eq, Structural)]
pub enum OcpSocketKind {
    /// Socket used for daemon initiated requests and kernel replies.
    DaemonInitiatedRequestsSocket,
    /// Socket used for kernel initiated requests and ovey userland replies.
    KernelInitiatedRequestsSocket,
    /// A number that names no socket kind.
    UnrecognizedVariant(u32),
}

/// The socket kind a number on the wire stands for.
pub open spec fn socket_kind_of(n: u32) -> OcpSocketKind {
    if n == 0 {
        OcpSocketKind::DaemonInitiatedRequestsSocket
    } else if n == 1 {
        OcpSocketKind::KernelInitiatedRequestsSocket
    } else {
        OcpSocketKind::UnrecognizedVariant(n)
    }
}

/// The number on the wire of a socket kind.
pub open spec fn socket_kind_number(k: OcpSocketKind) -> u32 {
    match k {
        OcpSocketKind::DaemonInitiatedRequestsSocket => 0,
        OcpSocketKind::KernelInitiatedRequestsSocket => 1,
        OcpSocketKind::UnrecognizedVariant(n) => n,
    }
}

impl OcpSocketKind {
    /// The socket kind a number on the wire stands for.
    pub fn from_number(n: u32) -> (r: OcpSocketKind)
        ensures
            r == socket_kind_of(n),
    {
        if n == 0 {
            OcpSocketKind::DaemonInitiatedRequestsSocket
        } else if n == 1 {
            OcpSocketKind::KernelInitiatedRequestsSocket
        } else {
            OcpSocketKind::UnrecognizedVariant(n)
        }
    }

    /// The number on the wire of this socket kind.
    pub fn number(&self) -> (r: u32)
        ensures
            r == socket_kind_number(*self),
    {
        match self {
            OcpSocketKind::DaemonInitiatedRequestsSocket => 0,
            OcpSocketKind::KernelInitiatedRequestsSocket => 1,
            OcpSocketKind::UnrecognizedVariant(n) => *n,
        }
    }
}

/// The netlink message type of an error message (`NLMSG_ERROR`).
pub const NLMSG_ERROR: u16 = 2;

/// What checking a reply of the kernel gives: a reply must be of the
/// protocol's family (not a netlink error) and answer the operation that was
/// sent.
pub open spec fn validate_reply_model(family_id: u16, op: OveyOperation, nl_type: u16, cmd: OveyOperation) -> Result<
    (),
    Seq<char>,
> {
    if nl_type == NLMSG_ERROR {
        Err("Received Error! Netlink Message Type is \"error\" (2) instead of our family"@)
    } else if nl_type != family_id {
        Err(
            "Received data from wrong family?! is="@ + decimal_text(nl_type as nat) + ", expected="@
                + decimal_text(family_id as nat),
        )
    } else if cmd != op {
        Err(
            "Received data (Ack) has wrong operation! is="@ + decimal_text(nl_type as nat)
                + ", expected="@ + decimal_text(family_id as nat),
        )
    } else {
        Ok(())
    }
}

/// The view of a check's result.
pub open spec fn unit_result_view(r: Result<(), String>) -> Result<(), Seq<char>> {
    match r {
        Ok(()) => Ok(()),
        Err(e) => Err(e@),
    }
}

/// Checks a reply of the kernel with netlink message type `nl_type` and
/// operation `cmd` to the operation `op` sent to the family `family_id`.
pub fn validate_reply(family_id: u16, op: OveyOperation, nl_type: u16, cmd: OveyOperation) -> (r: Result<
    (),
    String,
>)
    ensures
        unit_result_view(r) == validate_reply_model(family_id, op, nl_type, cmd),
{
    if nl_type == NLMSG_ERROR {
        return Err(
            String::from_str(
                "Received Error! Netlink Message Type is \"error\" (2) instead of our family",
            ),
        );
    }
    if nl_type != family_id {
        let mut s = String::from_str("Received data from wrong family?! is=");
        push_decimal(&mut s, nl_type as u64);
        s.append(", expected=");
        push_decimal(&mut s, family_id as u64);
        return Err(s);
    }
    if cmd != op {
        let mut s = String::from_str("Received data (Ack) has wrong operation! is=");
        push_decimal(&mut s, nl_type as u64);
        s.append(", expected=");
        push_decimal(&mut s, family_id as u64);
        return Err(s);
    }
    Ok(())
}

/// Reading a number as an operation and writing the operation back gives the
/// number; an operation that is not an unrecognised number written back and
/// read again is the same operation.
pub proof fn law_operation_numbers(n: u8, op: OveyOperation)
    ensures
        operation_number(operation_of(n)) == n,
        !(op is UnrecognizedVariant) ==> operation_of(operation_number(op)) == op,
{
}

/// Reading a number as an attribute and writing the attribute back gives the
/// number; an attribute that is not an unrecognised number written back and
/// read again is the same attribute.
pub proof fn law_attribute_numbers(n: u16, a: OveyAttribute)
    ensures
        attribute_number(attribute_of(n)) == n,
        !(a is UnrecognizedVariant) ==> attribute_of(attribute_number(a)) == a,
{
}

/// Reading a number as a socket kind and writing it back gives the number; a
/// named socket kind written back and read again is the same.
pub proof fn law_socket_kind_numbers(n: u32, k: OcpSocketKind)
    ensures
        socket_kind_number(socket_kind_of(n)) == n,
        !(k is UnrecognizedVariant) ==> socket_kind_of(socket_kind_number(k)) == k,
{
}

} // verus!
