use ovey::endianness::Endianness;
use ovey::guid::{
    guid_string_to_u64, guid_u64_to_string, guid_string_to_ube64, guid_he_to_string,
    guid_be_to_string, parse_guid_string, GUID_STRING_PATTERN,
};
use ovey::lid::{lid_string_to_u16, lid_u16_to_string, parse_lid_string};
use ovey::regex::{OveyRegex, regex_is_full_match, select_matching};
use ovey::ocp::{DEVICE_NAME_PATTERN, PARENT_DEVICE_NAME_PATTERN};
use ovey::text::replace_str;
use ovey::urls::{build_network_url, build_device_url, ROUTE_NETWORK_ONE, ROUTE_DEVICES_ONE};
use ovey::types::{Gid, HttpMethod, LeaseDeviceQuery, SetGidQuery, ResolveQpGidQuery, CreateQpQuery};
use ovey::urls::{compile, build_port_url, ROUTE_GIDS_PORT, ROUTE_GUIDS_DEVICE};
use ovey::cli::{get_host, coordinator_url, create_reply_error, delete_reply_error, build_ovey_regex};

#[test]
fn endianness_test_endianness() {
    let endianess = Endianness::get_system_endianess();
    println!("get_system_endianess: {:#?}", endianess);
    assert_eq!(endianess, Endianness::get_system_endianness());

    let input = 0xff00_0000_0000_0000_u64;
    let input_opposite_endianness = 0x0000_0000_0000_00ff_u64;

    let actual_opposite;
    let actual_same;
    if Endianness::system_is_be() {
        actual_opposite = Endianness::u64be_to_u64he(input);
        actual_same = Endianness::u64he_to_u64be(input);
    } else {
        actual_opposite = Endianness::u64he_to_u64be(input);
        actual_same = Endianness::u64be_to_u64he(input_opposite_endianness);
    }

    assert_eq!(actual_opposite, input_opposite_endianness, "Byte endianness must be changed!");
    assert_eq!(actual_same, input, "Byte endianness must be the same!");
}

#[test]
fn test_system_endianness() {
    let bin: u64 = 0b11110000_00000000_00000000_00000000_00000000_00000000_00000000_00000000;
    let hex: u64 = 0xf0_00_00_00_00_00_00_00;
    let decimal: u64 = 17293822569102704640;

    assert_eq!(bin, hex);
    assert_eq!(decimal, hex);
}

#[test]
fn system_endianness_is_one_of_two() {
    assert_ne!(Endianness::system_is_be(), Endianness::system_is_le());
    let little = 1u16.to_ne_bytes()[0] == 1;
    if little {
        assert_eq!(Endianness::get_system_endianness(), Endianness::LittleEndian);
    } else {
        assert_eq!(Endianness::get_system_endianness(), Endianness::BigEndian);
    }
}

#[test]
fn change_reverses_bytes_and_is_its_own_inverse() {
    assert_eq!(Endianness::change(0x0102_0304_0506_0708), 0x0807_0605_0403_0201);
    assert_eq!(Endianness::change(Endianness::change(0xdead_beef_1234_5678)), 0xdead_beef_1234_5678);
    let e = Endianness::LittleEndian;
    assert_eq!(e.host_to_be(0xff), 0xff00_0000_0000_0000);
    assert_eq!(e.be_to_host(e.host_to_be(42)), 42);
    let b = Endianness::BigEndian;
    assert_eq!(b.host_to_be(0xff), 0xff);
    assert!(b.is_big_endian());
    assert!(!e.is_big_endian());
    assert_eq!(Endianness::from_probe(0x0080), Endianness::LittleEndian);
    assert_eq!(Endianness::from_probe(0x8000), Endianness::BigEndian);
}

#[test]
fn guid_test_guid_string_to_ube64() {
    let input_he = "dead:beef:0000:0000";
    let expected_he = 0xdead_beef_0000_0000_u64;
    let actual_he = guid_string_to_u64(input_he);
    assert_eq!(expected_he, actual_he);
}

#[test]
fn guid_test_guid_he_to_string() {
    let input_he = 0xdead_beef_0000_0000_u64;
    let expected_he = "dead:beef:0000:0000";
    let actual_he = guid_u64_to_string(input_he);
    assert_eq!(expected_he, actual_he);
}

#[test]
fn lid_test_guid_string_to_ube64() {
    let input_he = "0xdead";
    let expected_he = 0xdead_u16;
    let actual_he = lid_string_to_u16(input_he);
    assert_eq!(expected_he, actual_he);
}

#[test]
fn lid_test_guid_he_to_string() {
    let input_he = 0xdead_u16;
    let expected_he = "0xdead";
    let actual_he = lid_u16_to_string(input_he);
    assert_eq!(expected_he, actual_he);
}

#[test]
fn lib_test_guid_string_to_ube64() {
    let guid_he = 11117637053157146634;
    let guid_be = Endianness::u64he_to_u64be(guid_he);
    let expected = guid_be;
    let input = "0a00:27ff:fec7:499a";
    let actual = guid_string_to_ube64(input);
    assert_eq!(expected, actual);
}

#[test]
fn test_guid_string_to_ube64_2() {
    let expected_he = 0xdead_beef_0000_0000_u64;
    let expected_be = Endianness::u64he_to_u64be(expected_he);
    let input = "dead:beef:0000:0000";
    let actual = guid_string_to_ube64(input);

    assert_eq!(expected_he, actual, "{:x} != {:x}", expected_be, actual);
}

#[test]
fn lib_test_guid_he_to_string() {
    let input_he = 0xdead_beef_0000_0000_u64;
    let input_be = Endianness::u64he_to_u64be(input_he);
    let expected = "dead:beef:0000:0000";
    let actual = guid_he_to_string(input_be);
    assert_eq!(expected, actual);
}

#[test]
fn guid_text_round_trips_and_bad_texts_are_refused() {
    for g in [0u64, 1, 0x0a00_27ff_fec7_499a, u64::MAX, 0x1234_5678_9abc_def0] {
        let s = guid_u64_to_string(g);
        assert_eq!(parse_guid_string(&s), Some(g));
    }
    assert_eq!(guid_u64_to_string(0x1234_5678_9abc_def0), "1234:5678:9abc:def0");
    assert_eq!(guid_be_to_string(0xabcd), "0000:0000:0000:abcd");
    assert_eq!(parse_guid_string("DEAD:BEEF:0000:0001"), Some(0xdead_beef_0000_0001));
    assert_eq!(parse_guid_string("xyz"), None);
    assert_eq!(parse_guid_string(""), None);
    assert_eq!(parse_guid_string("1:0000:0000:0000:0000"), None);
}

#[test]
fn lid_text_round_trips_and_decimal_is_read() {
    for l in [0u16, 1, 42, 0xdead, u16::MAX] {
        let s = lid_u16_to_string(l);
        assert_eq!(parse_lid_string(&s), Some(l));
    }
    assert_eq!(lid_u16_to_string(42), "0x002a");
    assert_eq!(parse_lid_string("42"), Some(42));
    assert_eq!(parse_lid_string("0x10000"), None);
    assert_eq!(parse_lid_string("65536"), None);
    assert_eq!(parse_lid_string("0x"), None);
    assert_eq!(parse_lid_string("+7"), Some(7));
}

#[test]
fn test_regex_is_full_match() {
    assert!(regex_is_full_match(&OveyRegex::new(DEVICE_NAME_PATTERN).unwrap(), "ovey0"), "'ovey0' must be valid");
    assert!(!regex_is_full_match(&OveyRegex::new(DEVICE_NAME_PATTERN).unwrap(), "ovey0 "), "'ovey0 ' must be invalid");
    assert!(regex_is_full_match(&OveyRegex::new(PARENT_DEVICE_NAME_PATTERN).unwrap(), "rxe0"), "'rxe0' must be valid");
    assert!(!regex_is_full_match(&OveyRegex::new(PARENT_DEVICE_NAME_PATTERN).unwrap(), "rxe0 "), "'rxe0 ' must be invalid");
    assert!(regex_is_full_match(&OveyRegex::new(GUID_STRING_PATTERN).unwrap(), "dead:beef:dead:beef"), "'dead:beef:dead:beef' must be valid");
}

#[test]
fn regex_partial_and_bad_patterns() {
    let unanchored = OveyRegex::new("ovey[0-9]+").unwrap();
    assert!(!regex_is_full_match(&unanchored, "ovey01515afaf"));
    assert!(regex_is_full_match(&unanchored, "ovey015"));
    assert!(unanchored.is_match("xxovey1yy"));
    assert_eq!(unanchored.as_str(), "ovey[0-9]+");
    assert!(OveyRegex::new("foo(bar").is_none());
    let names: Vec<String> = vec!["ovey0".to_string(), "rxe0".to_string(), "ovey12".to_string(), "ovey".to_string()];
    let re = OveyRegex::new(DEVICE_NAME_PATTERN).unwrap();
    assert_eq!(select_matching(&re, &names), vec!["ovey0".to_string(), "ovey12".to_string()]);
    let alt = OveyRegex::new("a|ab").unwrap();
    assert!(regex_is_full_match(&alt, "ab"));
    assert!(regex_is_full_match(&alt, "a"));
    assert!(!regex_is_full_match(&alt, "abc"));
}

#[test]
fn replace_replaces_every_occurrence_left_to_right() {
    assert_eq!(replace_str("a{x}b{x}", "{x}", "yy"), "ayybyy");
    assert_eq!(replace_str("aaa", "aa", "b"), "ba");
    assert_eq!(replace_str("none", "{x}", "y"), "none");
    assert_eq!(replace_str("", "x", "y"), "");
}

#[test]
fn urls_put_uuids_in_place() {
    let net: u128 = 0x123e4567_e89b_12d3_a456_426614174000;
    let dev: u128 = 0x00000000_0000_0000_0000_0000000000ff;
    assert_eq!(build_network_url(ROUTE_NETWORK_ONE, net), "/networks/123e4567-e89b-12d3-a456-426614174000");
    assert_eq!(
        build_device_url(ROUTE_DEVICES_ONE, net, dev),
        "/networks/123e4567-e89b-12d3-a456-426614174000/devices/00000000-0000-0000-0000-0000000000ff"
    );
}

#[test]
fn gid_display_and_address_kinds() {
    let g = Gid { subnet_prefix: 0xfe80_0000_0000_0000, interface_id: 1 };
    assert_eq!(g.to_string(), "fe8000:0000:0000:0001");
    assert!(g.is_loopback());
    assert!(!g.is_reserved());
    let z = Gid { subnet_prefix: 0, interface_id: 0 };
    assert!(z.is_reserved());
    assert_eq!(z.to_string(), "0000:0000:0000:0000");
    let h = Gid { subnet_prefix: 0x0102_0304_0506_0708, interface_id: 0x1112_1314_1516_1718 };
    assert_eq!(h.to_string(), "1234:5678:11121314:15161718");
}

#[test]
fn queries_know_their_endpoints_and_urls_compile() {
    let g = Gid { subnet_prefix: 1, interface_id: 2 };
    let q = LeaseDeviceQuery { guid: 3 };
    assert_eq!(q.method(), HttpMethod::Post);
    assert_eq!(q.endpoint(), ROUTE_GUIDS_DEVICE);
    let s = SetGidQuery { real_idx: 0, virt_idx: 0, virt: g, real: g };
    assert_eq!(s.method(), HttpMethod::Put);
    assert_eq!(s.endpoint(), ROUTE_GIDS_PORT);
    assert_eq!(ResolveQpGidQuery { gid: g, qpn: 1 }.method(), HttpMethod::Get);
    assert_eq!(CreateQpQuery { qpn: 1 }.endpoint(), "/networks/{network}/devices/{device}/qps");
    let net: u128 = 1;
    let dev: u128 = 2;
    assert_eq!(
        build_port_url(ROUTE_GIDS_PORT, net, dev, 12),
        "/networks/00000000-0000-0000-0000-000000000001/devices/00000000-0000-0000-0000-000000000002/ports/12/gids"
    );
    assert_eq!(
        compile(q.endpoint(), Some("http://h:1"), net, Some(dev), None),
        "http://h:1/networks/00000000-0000-0000-0000-000000000001/devices/00000000-0000-0000-0000-000000000002/guids"
    );
    assert_eq!(
        compile("/networks/{network}/gids", None, net, None, None),
        "/networks/00000000-0000-0000-0000-000000000001/gids"
    );
}

#[test]
fn cli_reports_refusals() {
    let net: u128 = 0xc929e96d_6285_4528_b98e_b364d64790ae;
    assert_eq!(get_host(net).unwrap(), "nadu1:13337");
    assert_eq!(coordinator_url("nadu1:13337", "/network/x"), "http://nadu1:13337/network/x");
    assert_eq!(
        create_reply_error(404, "dead:beef:0000:0001", net).unwrap(),
        "Device does not exist: dead:beef:0000:0001 c929e96d-6285-4528-b98e-b364d64790ae"
    );
    assert_eq!(
        create_reply_error(409, "dead:beef:0000:0001", net).unwrap(),
        "Device already registered: dead:beef:0000:0001 c929e96d-6285-4528-b98e-b364d64790ae"
    );
    assert_eq!(create_reply_error(200, "x", net), None);
    assert_eq!(delete_reply_error(409, "x", net), None);
    assert!(delete_reply_error(404, "x", net).is_some());
}

#[test]
fn ovey_regex_is_built() {
    let re = build_ovey_regex().unwrap();
    assert_eq!(re.as_str(), DEVICE_NAME_PATTERN);
    assert!(regex_is_full_match(&re, "ovey42"));
    assert!(!regex_is_full_match(&re, "rxe0"));
}

#[test]
fn lower_case_guid_texts_are_written_back() {
    for t in ["abc0:afaf:34b5:0015", "0000:0000:0000:0000", "ffff:ffff:ffff:ffff", "dead:beef:0000:0001"] {
        assert_eq!(guid_u64_to_string(guid_string_to_u64(t)), t);
    }
    assert_eq!(guid_u64_to_string(guid_string_to_u64("DEAD:BEEF:0000:0001")), "dead:beef:0000:0001");
}
