//! The Ovey coordinator: it hands out virtual GUIDs, GIDs, LIDs and QP
//! numbers for the devices of virtual networks and resolves them back.

pub mod data;
pub mod db;
pub mod errors;
pub mod laws;
pub mod ports;
pub mod resolve;
pub mod routes;
pub mod state;
pub mod urls;
