//! Route paths/urls for the REST-API for Ovey Daemon.

use vstd::prelude::*;
use vstd::string::StringExecFns;
use crate::text::{hex_digits, pow16, replace_all, replace_str};
use crate::ocp::{decimal_text, push_decimal};

verus! {

/// Endpoint to all known networks
pub const ROUTE_NETWORK_ALL: &'static str = "/networks";

/// Endpoint to a known network identified by UUID
pub const ROUTE_NETWORK_ONE: &'static str = "/networks/{network}";

/// Endpoint to all devices in a known network.
pub const ROUTE_DEVICES_ALL: &'static str = "/networks/{network}/devices";

/// Endpoint to all devices in a known network. Both are identified by UUID.
pub const ROUTE_DEVICES_ONE: &'static str = "/networks/{network}/devices/{device}";

/// Endpoint to all GUIDs of a device. A device may have multiple GUIDs, if it
/// has multiple ports, for example.
pub const ROUTE_GUIDS_DEVICE: &'static str = "/networks/{network}/devices/{device}/guids";

/// Endpoint to all GIDs of a device. A device may have multiple GIDs.
pub const ROUTE_GIDS_DEVICE: &'static str = "/networks/{network}/devices/{device}/gids";

/// Endpoint to all GIDs in a network. A device may have multiple GIDs.
pub const ROUTE_GIDS_ALL: &'static str = "/networks/{network}/gids";

/// Endpoint to all ports of a device.
pub const ROUTE_PORTS_DEVICE: &'static str = "/networks/{network}/devices/{device}/ports";

/// Endpoint to one port of a device.
pub const ROUTE_PORTS_ONE: &'static str = "/networks/{network}/devices/{device}/ports/{port}";

/// Endpoint to the GIDs of one port of a device.
pub const ROUTE_GIDS_PORT: &'static str = "/networks/{network}/devices/{device}/ports/{port}/gids";

/// Endpoint to the QPs of a device.
pub const ROUTE_QPS_DEVICE: &'static str = "/networks/{network}/devices/{device}/qps";

/// The text of a UUID given as a number: its 32 lower-case hex digits, most
/// significant first, in groups of 8, 4, 4, 4 and 12 joined by '-'.
pub open spec fn uuid_text(v: u128) -> Seq<char> {
    hex_digits(v as nat / pow16(24), 8) + seq!['-'] + hex_digits(v as nat / pow16(20), 4) + seq!['-']
        + hex_digits(v as nat / pow16(16), 4) + seq!['-'] + hex_digits(v as nat / pow16(12), 4)
        + seq!['-'] + hex_digits(v as nat, 12)
}

/// Calls `uuid::Uuid::to_string` on the UUID whose 128-bit value is `id`
/// (`Uuid::from_u128`). The uuid crate writes the sixteen bytes of the value,
/// most significant first, as lower-case hex digits with hyphens after the
/// 4th, 6th, 8th and 10th byte.
#[verifier::external_body]
pub(crate) fn uuid_to_string(id: u128) -> (r: String)
    ensures
        r@ == uuid_text(id),
{
    uuid::Uuid::from_u128(id).to_string()
}

/// The 128-bit value of the UUID a text denotes, if it denotes one (in any of
/// the forms the uuid crate reads).
pub uninterp spec fn uuid_parsed(text: Seq<char>) -> Option<u128>;

/// Calls `uuid::Uuid::parse_str` and gives the UUID's 128-bit value
/// (`Uuid::as_u128`); the error (the text is no UUID) is mapped to its message
/// (`to_string`), of which nothing is stated.
#[verifier::external_body]
pub(crate) fn uuid_parse(text: &str) -> (r: Result<u128, String>)
    ensures
        r is Ok <==> uuid_parsed(text@) is Some,
        r matches Ok(v) ==> uuid_parsed(text@) == Some(v),
{
    uuid::Uuid::parse_str(text).map(|u| u.as_u128()).map_err(|e| e.to_string())
}

/// Reads the UUID of a network from its text; the error is the uuid crate's
/// message where the text is no UUID.
pub fn parse_network_id(text: &str) -> (r: Result<u128, String>)
    ensures
        r is Ok <==> uuid_parsed(text@) is Some,
        r matches Ok(v) ==> uuid_parsed(text@) == Some(v),
{
    uuid_parse(text)
}

/// The text of the UUID of a network: lower-case hex digits in groups of 8, 4,
/// 4, 4 and 12 joined by '-'.
pub fn network_id_text(network: u128) -> (r: String)
    ensures
        r@ == uuid_text(network),
{
    uuid_to_string(network)
}

/// The placeholder for a network UUID in an endpoint.
pub open spec fn network_placeholder() -> Seq<char> {
    "{network}"@
}

/// The placeholder for a device UUID in an endpoint.
pub open spec fn device_placeholder() -> Seq<char> {
    "{device}"@
}

/// Builds the endpoint starting with / inside Ovey coordinator REST Service,
/// where a network can be queried with all its devices.
pub fn build_network_url(endpoint: &str, network: u128) -> (r: String)
    ensures
        r@ == replace_all(endpoint@, network_placeholder(), uuid_text(network)),
{
    let id = uuid_to_string(network);
    proof {
        reveal_strlit("{network}");
    }
    replace_str(endpoint, "{network}", id.as_str())
}

/// Builds the endpoint url do modify a device.
pub fn build_device_url(endpoint: &str, network: u128, device: u128) -> (r: String)
    ensures
        r@ == replace_all(
            replace_all(endpoint@, network_placeholder(), uuid_text(network)),
            device_placeholder(),
            uuid_text(device),
        ),
{
    let with_network = build_network_url(endpoint, network);
    let id = uuid_to_string(device);
    proof {
        reveal_strlit("{device}");
    }
    replace_str(with_network.as_str(), "{device}", id.as_str())
}

/// The placeholder for a port number in an endpoint.
pub open spec fn port_placeholder() -> Seq<char> {
    "{port}"@
}

/// Builds the endpoint url of a port of a device.
pub fn build_port_url(endpoint: &str, network: u128, device: u128, port: u16) -> (r: String)
    ensures
        r@ == replace_all(
            replace_all(
                replace_all(endpoint@, network_placeholder(), uuid_text(network)),
                device_placeholder(),
                uuid_text(device),
            ),
            port_placeholder(),
            decimal_text(port as nat),
        ),
{
    let with_device = build_device_url(endpoint, network, device);
    let mut p = String::new();
    push_decimal(&mut p, port as u64);
    assert(p@ =~= decimal_text(port as nat));
    proof {
        reveal_strlit("{port}");
    }
    replace_str(with_device.as_str(), "{port}", p.as_str())
}

/// The url of an endpoint for a query: the port url where a port is given, else
/// the device url where a device is given, else the network url; prefixed by
/// `host` where one is given.
pub open spec fn compiled_url(endpoint: Seq<char>, host: Option<Seq<char>>, network: u128, device: Option<u128>, port: Option<u16>) -> Seq<char> {
    let with_network = replace_all(endpoint, network_placeholder(), uuid_text(network));
    let url = match port {
        Some(p) => replace_all(
            replace_all(with_network, device_placeholder(), uuid_text(device->0)),
            port_placeholder(),
            decimal_text(p as nat),
        ),
        None => match device {
            Some(d) => replace_all(with_network, device_placeholder(), uuid_text(d)),
            None => with_network,
        },
    };
    match host {
        Some(h) => h + url,
        None => url,
    }
}

/// The text of an optional borrowed string.
pub open spec fn opt_str_view(s: Option<&str>) -> Option<Seq<char>> {
    match s {
        Some(t) => Some(t@),
        None => None,
    }
}

/// Builds the url a daemon query is sent to (see `compiled_url`); a port can only
/// be given together with its device.
pub fn compile(endpoint: &str, host: Option<&str>, network: u128, device: Option<u128>, port: Option<u16>) -> (r: String)
    requires
        port is Some ==> device is Some,
    ensures
        r@ == compiled_url(endpoint@, opt_str_view(host), network, device, port),
{
    let url = match port {
        Some(p) => build_port_url(endpoint, network, device.unwrap(), p),
        None => match device {
            Some(d) => build_device_url(endpoint, network, d),
            None => build_network_url(endpoint, network),
        },
    };
    match host {
        Some(h) => {
            let mut s = String::from_str(h);
            s.append(url.as_str());
            s
        },
        None => url,
    }
}

} // verus!
