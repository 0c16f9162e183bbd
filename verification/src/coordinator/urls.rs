//! Route paths/urls of the coordinator's REST interface for devices.

use vstd::prelude::*;
use crate::text::{
    replace_all, replace_str, lacks_char, lemma_replace_all_concat, lemma_replace_all_at_start,
    lemma_hex_digits_lack_brace, hex_digits, pow16,
};
use crate::urls::{uuid_text, uuid_to_string, network_placeholder};

verus! {

/// Returns the configuration of the coordinator.
pub const ROUTE_GET_CONFIG_URL: &'static str = "/config";

/// {network} is uuid of the network.
pub const ROUTE_ADD_DEVICE_URL: &'static str = "/network/{network}/device";

/// Endpoint where the Ovey daemon can ask for all devices in the current network.
pub const ROUTE_NETWORK_URL: &'static str = "/network/{network}";

/// Under this endpoint a device can be managed. GET, DELETE, ...
/// {network} is uuid of the network, {device_id} the virtual guid string.
pub const ROUTE_DEVICE_URL: &'static str = "/network/{network}/device/{device_id}";

/// The placeholder for a device id in an endpoint.
pub open spec fn device_id_placeholder() -> Seq<char> {
    "{device_id}"@
}

/// Builds the endpoint starting with / inside Ovey coordinator REST Service,
/// where new devices can be created.
pub fn build_add_device_url(network_id: u128) -> (r: String)
    ensures
        r@ == replace_all(ROUTE_ADD_DEVICE_URL@, network_placeholder(), uuid_text(network_id)),
{
    let id = uuid_to_string(network_id);
    proof {
        reveal_strlit("{network}");
    }
    replace_str(ROUTE_ADD_DEVICE_URL, "{network}", id.as_str())
}

/// Builds the endpoint starting with / inside Ovey coordinator REST Service,
/// where a network can be queried with all its devices.
pub fn build_network_url(network_id: u128) -> (r: String)
    ensures
        r@ == replace_all(ROUTE_NETWORK_URL@, network_placeholder(), uuid_text(network_id)),
{
    let id = uuid_to_string(network_id);
    proof {
        reveal_strlit("{network}");
    }
    replace_str(ROUTE_NETWORK_URL, "{network}", id.as_str())
}

/// Builds the endpoint url do modify a device.
pub fn build_device_url(network_id: u128, device_id: &str) -> (r: String)
    ensures
        r@ == replace_all(
            replace_all(ROUTE_DEVICE_URL@, network_placeholder(), uuid_text(network_id)),
            device_id_placeholder(),
            device_id@,
        ),
{
    let id = uuid_to_string(network_id);
    proof {
        reveal_strlit("{network}");
        reveal_strlit("{device_id}");
    }
    let with_network = replace_str(ROUTE_DEVICE_URL, "{network}", id.as_str());
    replace_str(with_network.as_str(), "{device_id}", device_id)
}

/// The text of a UUID holds no `'{'`, so it never starts a placeholder.
pub proof fn lemma_uuid_text_lacks_brace(v: u128)
    ensures
        lacks_char(uuid_text(v), '{'),
{
    let n = v as nat;
    lemma_hex_digits_lack_brace(n / pow16(24), 8);
    lemma_hex_digits_lack_brace(n / pow16(20), 4);
    lemma_hex_digits_lack_brace(n / pow16(16), 4);
    lemma_hex_digits_lack_brace(n / pow16(12), 4);
    lemma_hex_digits_lack_brace(n, 12);
    let t = uuid_text(v);
    let h0 = hex_digits(n / pow16(24), 8);
    let h1 = hex_digits(n / pow16(20), 4);
    let h2 = hex_digits(n / pow16(16), 4);
    let h3 = hex_digits(n / pow16(12), 4);
    let h4 = hex_digits(n, 12);
    let d = seq!['-'];
    assert(t == h0 + d + h1 + d + h2 + d + h3 + d + h4);
    assert forall|i: int| 0 <= i < t.len() implies t[i] != '{' by {
        if i < h0.len() {
            assert(t[i] == h0[i]);
        } else if i < h0.len() + 1 {
            assert(t[i] == '-');
        } else if i < h0.len() + 1 + h1.len() {
            assert(t[i] == h1[i - h0.len() - 1]);
        } else if i < h0.len() + 2 + h1.len() {
            assert(t[i] == '-');
        } else if i < h0.len() + 2 + h1.len() + h2.len() {
            assert(t[i] == h2[i - h0.len() - 2 - h1.len()]);
        } else if i < h0.len() + 3 + h1.len() + h2.len() {
            assert(t[i] == '-');
        } else if i < h0.len() + 3 + h1.len() + h2.len() + h3.len() {
            assert(t[i] == h3[i - h0.len() - 3 - h1.len() - h2.len()]);
        } else if i < h0.len() + 4 + h1.len() + h2.len() + h3.len() {
            assert(t[i] == '-');
        } else {
            assert(t[i] == h4[i - h0.len() - 4 - h1.len() - h2.len() - h3.len()]);
        }
    }
}

/// The coordinator's paths of a network hang together (these are the results of
/// `build_network_url`, `build_add_device_url` and `build_device_url`): the
/// network's path is "/network/" and its UUID, the path where its devices are
/// added is the network's path and "/device", and the path of one of its
/// devices is the path where devices are added, "/" and the device id.
pub proof fn law_url_paths(network_id: u128, device_id: Seq<char>)
    ensures
        ({
            let n = replace_all(ROUTE_NETWORK_URL@, network_placeholder(), uuid_text(network_id));
            &&& n == "/network/"@ + uuid_text(network_id)
            &&& replace_all(ROUTE_ADD_DEVICE_URL@, network_placeholder(), uuid_text(network_id))
                == n + "/device"@
            &&& replace_all(
                replace_all(ROUTE_DEVICE_URL@, network_placeholder(), uuid_text(network_id)),
                device_id_placeholder(),
                device_id,
            ) == n + "/device/"@ + device_id
            &&& replace_all(
                replace_all(ROUTE_DEVICE_URL@, network_placeholder(), uuid_text(network_id)),
                device_id_placeholder(),
                device_id,
            ) == replace_all(ROUTE_ADD_DEVICE_URL@, network_placeholder(), uuid_text(network_id))
                + "/"@ + device_id
        }),
{
    reveal_strlit("/network/{network}");
    reveal_strlit("/network/{network}/device");
    reveal_strlit("/network/{network}/device/{device_id}");
    reveal_strlit("{network}");
    reveal_strlit("{device_id}");
    reveal_strlit("/network/");
    reveal_strlit("/device");
    reveal_strlit("/device/");
    reveal_strlit("/");
    let u = uuid_text(network_id);
    let pre = "/network/"@;
    let ph = network_placeholder();
    let dph = device_id_placeholder();
    let dev = "/device"@;
    let devs = "/device/"@;
    lemma_uuid_text_lacks_brace(network_id);
    assert(lacks_char(pre, '{'));
    assert(lacks_char(dev, '{'));
    assert(lacks_char(devs, '{'));
    assert(ph[0] == '{');
    assert(dph[0] == '{');
    assert(replace_all(Seq::<char>::empty(), ph, u) == Seq::<char>::empty());
    // the network's path
    assert(ROUTE_NETWORK_URL@ =~= pre + (ph + Seq::<char>::empty()));
    lemma_replace_all_concat(pre, ph + Seq::<char>::empty(), ph, u);
    lemma_replace_all_at_start(Seq::<char>::empty(), ph, u);
    let n = replace_all(ROUTE_NETWORK_URL@, ph, u);
    assert(n =~= pre + u);
    // where devices are added
    assert(ROUTE_ADD_DEVICE_URL@ =~= pre + (ph + dev));
    lemma_replace_all_concat(pre, ph + dev, ph, u);
    lemma_replace_all_at_start(dev, ph, u);
    lemma_replace_all_concat(dev, Seq::<char>::empty(), ph, u);
    assert(dev + Seq::<char>::empty() =~= dev);
    assert(replace_all(ROUTE_ADD_DEVICE_URL@, ph, u) =~= n + dev);
    // one device
    assert(ROUTE_DEVICE_URL@ =~= pre + (ph + (devs + dph)));
    lemma_replace_all_concat(pre, ph + (devs + dph), ph, u);
    lemma_replace_all_at_start(devs + dph, ph, u);
    lemma_replace_all_concat(devs, dph, ph, u);
    assert(replace_all(dph, ph, u) == dph) by {
        assert(dph.subrange(0, ph.len() as int) != ph) by {
            assert(dph.subrange(0, ph.len() as int)[1] != ph[1]);
        }
        let rest = dph.skip(1);
        assert(lacks_char(rest, '{')) by {
            assert forall|i: int| 0 <= i < rest.len() implies rest[i] != '{' by {
                assert(rest[i] == dph[i + 1]);
            }
        }
        assert(rest + Seq::<char>::empty() =~= rest);
        lemma_replace_all_concat(rest, Seq::<char>::empty(), ph, u);
        assert(seq![dph[0]] + rest =~= dph);
    }
    let m = replace_all(ROUTE_DEVICE_URL@, ph, u);
    assert(m =~= pre + u + devs + dph);
    assert(lacks_char(pre + u + devs, '{'));
    lemma_replace_all_concat(pre + u + devs, dph, dph, device_id);
    lemma_replace_all_at_start(Seq::<char>::empty(), dph, device_id);
    assert(dph + Seq::<char>::empty() =~= dph);
    assert(device_id + Seq::<char>::empty() =~= device_id);
    assert(devs =~= dev + "/"@);
    assert(n + devs + device_id =~= n + dev + "/"@ + device_id);
}

} // verus!
