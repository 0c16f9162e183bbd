//! Errors the coordinator answers requests with.

use vstd::prelude::*;
use crate::types::Gid;

verus! {

/// Why the coordinator refused a request. UUIDs are given as numbers.
#[derive(Debug, Clone, PartialEq, Eq)]
pub enum CoordinatorRestError {
    /// The network is not known.
    NetworkUuidNotFound(u128),
    /// The device (second) is not known in the network (first).
    DeviceUuidNotFound(u128, u128),
    /// The port (second) is not known in the device (first).
    PortNotFound(u128, u16),
    /// No device has this virtual GID.
    GidNotFound(Gid),
    /// No port has this virtual LID.
    LidNotFound(u32),
    /// No QP has this virtual number.
    QpNotFound(u32),
    /// The real or the virtual GID is not unique, or the GID table is full.
    GidConflict,
    /// Attempt to store a reserved address.
    GidReserved,
    /// The addresses resolve to different devices.
    DeviceConflict,
    /// The coordinator does not manage this network.
    VirtNetworkNotSupported(u128),
    /// The device (GUID text) is not registered in the network.
    VirtDeviceNotYetRegistered(u128, String),
    /// The device (GUID text) is already registered in the network.
    VirtDeviceAlreadyRegistered(u128, String),
    /// The configuration does not allow the device (GUID text) in the network.
    VirtDeviceGuidNotSupported(u128, String),
}

/// HTTP status 404.
pub const STATUS_NOT_FOUND: u16 = 404;

/// HTTP status 409.
pub const STATUS_CONFLICT: u16 = 409;

/// The HTTP status that answers an error.
pub open spec fn error_status(e: CoordinatorRestError) -> u16 {
    match e {
        CoordinatorRestError::GidConflict => STATUS_CONFLICT,
        CoordinatorRestError::GidReserved => STATUS_CONFLICT,
        CoordinatorRestError::DeviceConflict => STATUS_CONFLICT,
        CoordinatorRestError::VirtDeviceAlreadyRegistered(..) => STATUS_CONFLICT,
        _ => STATUS_NOT_FOUND,
    }
}

impl CoordinatorRestError {
    /// The HTTP status code that answers this error: "not found" for unknown
    /// networks, devices, ports and addresses, "conflict" for the rest.
    pub fn status_code(&self) -> (r: u16)
        ensures
            r == error_status(*self),
    {
        match self {
            CoordinatorRestError::GidConflict => STATUS_CONFLICT,
            CoordinatorRestError::GidReserved => STATUS_CONFLICT,
            CoordinatorRestError::DeviceConflict => STATUS_CONFLICT,
            CoordinatorRestError::VirtDeviceAlreadyRegistered(..) => STATUS_CONFLICT,
            _ => STATUS_NOT_FOUND,
        }
    }
}

/// An error with its texts as character sequences.
pub ghost enum ErrorModel {
    NetworkUuidNotFound(u128),
    DeviceUuidNotFound(u128, u128),
    PortNotFound(u128, u16),
    GidNotFound(Gid),
    LidNotFound(u32),
    QpNotFound(u32),
    GidConflict,
    GidReserved,
    DeviceConflict,
    VirtNetworkNotSupported(u128),
    VirtDeviceNotYetRegistered(u128, Seq<char>),
    VirtDeviceAlreadyRegistered(u128, Seq<char>),
    VirtDeviceGuidNotSupported(u128, Seq<char>),
}

/// An error with its texts as character sequences.
pub open spec fn error_model(e: CoordinatorRestError) -> ErrorModel {
    match e {
        CoordinatorRestError::NetworkUuidNotFound(n) => ErrorModel::NetworkUuidNotFound(n),
        CoordinatorRestError::DeviceUuidNotFound(n, d) => ErrorModel::DeviceUuidNotFound(n, d),
        CoordinatorRestError::PortNotFound(d, p) => ErrorModel::PortNotFound(d, p),
        CoordinatorRestError::GidNotFound(g) => ErrorModel::GidNotFound(g),
        CoordinatorRestError::LidNotFound(l) => ErrorModel::LidNotFound(l),
        CoordinatorRestError::QpNotFound(q) => ErrorModel::QpNotFound(q),
        CoordinatorRestError::GidConflict => ErrorModel::GidConflict,
        CoordinatorRestError::GidReserved => ErrorModel::GidReserved,
        CoordinatorRestError::DeviceConflict => ErrorModel::DeviceConflict,
        CoordinatorRestError::VirtNetworkNotSupported(n) => ErrorModel::VirtNetworkNotSupported(n),
        CoordinatorRestError::VirtDeviceNotYetRegistered(n, t) => ErrorModel::VirtDeviceNotYetRegistered(
            n,
            t@,
        ),
        CoordinatorRestError::VirtDeviceAlreadyRegistered(n, t) => ErrorModel::VirtDeviceAlreadyRegistered(
            n,
            t@,
        ),
        CoordinatorRestError::VirtDeviceGuidNotSupported(n, t) => ErrorModel::VirtDeviceGuidNotSupported(
            n,
            t@,
        ),
    }
}

} // verus!
