//! Verified core of the Ovey overlay-RDMA tooling: GUID/LID text formats,
//! byte-order conversion, the coordinator's address-virtualisation state,
//! and the decoding of kernel (OCP) messages.

pub mod endianness;
pub mod text;
pub mod guid;
pub mod lid;
pub mod types;
pub mod coordinator;
pub mod regex;
pub mod urls;
pub mod ocp;
pub mod ocp_recv;
pub mod ocp_send;
pub mod krequests;
pub mod cli;
