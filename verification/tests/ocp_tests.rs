use ovey::ocp::{OveyOperation, OveyAttribute, OcpSocketKind, validate_reply, push_decimal};
use ovey::ocp_recv::{OcpAttr, OCPRecData, bytes_to_string, byte_vector_to_u64};
use ovey::krequests::KRequest;
use ovey::cli::{
    device_info, first_error, deletion_state, DeviceInfo, list_devices, device_info_error, list_devices_checked,
    create_device_step, CreateState, CreateEvent, CreateAction, deletion_target,
};
use ovey::ocp_send::{socket_kind_request, resolve_completion_request};
use ovey::urls::{parse_network_id, network_id_text};
use ovey::ocp_send::{create_device_request, device_name_request, echo_request};

fn attr(kind: OveyAttribute, payload: Vec<u8>) -> OcpAttr {
    OcpAttr { kind, payload }
}

fn nstr(s: &str) -> Vec<u8> {
    let mut v = s.as_bytes().to_vec();
    v.push(0);
    v
}

#[test]
fn operations_and_attributes_have_numbers_and_names() {
    assert_eq!(OveyOperation::from_number(1), OveyOperation::Echo);
    assert_eq!(OveyOperation::from_number(12), OveyOperation::StoreVirtPropertyPortLid);
    assert_eq!(OveyOperation::from_number(200), OveyOperation::UnrecognizedVariant(200));
    assert_eq!(OveyOperation::KernelModuleBye.number(), 11);
    assert_eq!(OveyOperation::Echo.to_string(), "OveyOperation::Echo(1)");
    assert_eq!(OveyOperation::UnrecognizedVariant(123).to_string(), "OveyOperation::<unknown>(123)");
    assert_eq!(OveyAttribute::from_number(8), OveyAttribute::CompletionId);
    assert_eq!(OveyAttribute::RealPropertyU32.number(), 10);
    assert_eq!(OveyAttribute::Msg.to_string(), "OveyAttribute::Msg(1)");
    assert_eq!(OveyAttribute::from_number(7000).to_string(), "OveyAttribute::<unknown>(7000)");
    assert_eq!(OcpSocketKind::from_number(1), OcpSocketKind::KernelInitiatedRequestsSocket);
    assert_eq!(OcpSocketKind::DaemonInitiatedRequestsSocket.number(), 0);
    let mut s = String::new();
    push_decimal(&mut s, 0);
    push_decimal(&mut s, 1234567890);
    assert_eq!(s, "01234567890");
}

#[test]
fn received_data_is_decoded() {
    let attrs = vec![
        attr(OveyAttribute::Msg, nstr("hello")),
        attr(OveyAttribute::DeviceName, nstr("ovey0")),
        attr(OveyAttribute::ParentDeviceName, nstr("rxe0")),
        attr(OveyAttribute::NodeGuid, 0xdead_beef_0000_0001u64.to_be_bytes().to_vec()),
        attr(OveyAttribute::ParentNodeGuid, 7u64.to_be_bytes().to_vec()),
        attr(OveyAttribute::VirtNetUuidStr, nstr("c929e96d-6285-4528-b98e-b364d64790ae")),
        attr(OveyAttribute::SocketKind, 1u32.to_ne_bytes().to_vec()),
        attr(OveyAttribute::CompletionId, 99u64.to_ne_bytes().to_vec()),
        attr(OveyAttribute::DeviceName, nstr("ovey1")),
        attr(OveyAttribute::VirtPropertyU32, vec![1, 2]),
    ];
    assert!(OCPRecData::decodes(&attrs));
    let d = OCPRecData::new(&attrs);
    assert_eq!(d.msg().unwrap(), "hello");
    assert_eq!(d.device_name().unwrap(), "ovey1");
    assert_eq!(d.parent_device_name().unwrap(), "rxe0");
    assert_eq!(d.node_guid(), Some(0xdead_beef_0000_0001));
    assert_eq!(d.node_guid_str().unwrap(), "dead:beef:0000:0001");
    assert_eq!(d.parent_node_guid(), Some(7));
    assert_eq!(d.parent_node_guid_str().unwrap(), "0000:0000:0000:0007");
    assert_eq!(d.virt_network_uuid_str().unwrap(), "c929e96d-6285-4528-b98e-b364d64790ae");
    assert_eq!(d.socket_kind(), Some(1));
    assert_eq!(d.completion_id(), Some(99));
    assert_eq!(d.node_lid(), None);
    assert_eq!(d.node_lid_str(), None);
}

#[test]
fn undecodable_data_is_detected() {
    assert!(OCPRecData::decodes(&[attr(OveyAttribute::Msg, b"no nul".to_vec())]));
    assert!(OCPRecData::decodes(&[attr(OveyAttribute::Msg, vec![])]));
    assert!(!OCPRecData::decodes(&[attr(OveyAttribute::Msg, vec![0xff, 0])]));
    assert!(!OCPRecData::decodes(&[attr(OveyAttribute::NodeGuid, vec![1, 2, 3])]));
    assert!(OCPRecData::decodes(&[attr(OveyAttribute::Unspec, vec![])]));
    assert!(OCPRecData::decodes(&[attr(OveyAttribute::UnrecognizedVariant(77), vec![])]));
    let odd = vec![
        attr(OveyAttribute::Unspec, vec![1]),
        attr(OveyAttribute::CompletionId, vec![1, 2, 3]),
        attr(OveyAttribute::SocketKind, vec![1]),
        attr(OveyAttribute::UnrecognizedVariant(77), vec![9]),
        attr(OveyAttribute::Msg, nstr("hi")),
    ];
    assert!(OCPRecData::decodes(&odd));
    let d = OCPRecData::new(&odd);
    assert_eq!(d.completion_id(), None);
    assert_eq!(d.socket_kind(), None);
    assert_eq!(d.msg().unwrap(), "hi");
    assert!(OCPRecData::decodes(&[]));
    let empty = OCPRecData::new(&[]);
    assert_eq!(empty.msg(), None);
    assert_eq!(empty.node_guid(), None);
}

#[test]
fn kernel_requests_are_read() {
    let attrs = vec![
        attr(OveyAttribute::CompletionId, 5u64.to_ne_bytes().to_vec()),
        attr(OveyAttribute::VirtPropertyU32, 300u32.to_ne_bytes().to_vec()),
        attr(OveyAttribute::RealPropertyU32, 200u32.to_ne_bytes().to_vec()),
        attr(OveyAttribute::CompletionId, 6u64.to_ne_bytes().to_vec()),
    ];
    assert!(KRequest::message_decodes(OveyOperation::ResolveCompletion, &attrs));
    let r = KRequest::from_message(OveyOperation::ResolveCompletion, &attrs);
    assert_eq!(r, KRequest::ResolveCompletion { id: 5 });
    assert_eq!(r.id(), 5);
    assert_eq!(r.op(), OveyOperation::ResolveCompletion);
    let s = KRequest::from_message(OveyOperation::StoreVirtPropertyPortLid, &attrs);
    assert_eq!(s, KRequest::StoreVirtPortLid { id: 5, real_lid: 200, virt_lid: 300 });
    assert_eq!(s.op(), OveyOperation::StoreVirtPropertyPortLid);
    let bye = KRequest::from_message(OveyOperation::KernelModuleBye, &[]);
    assert_eq!(bye, KRequest::ShutdownDaemon);
    assert_eq!(bye.op(), OveyOperation::KernelModuleBye);
    assert!(!KRequest::message_decodes(OveyOperation::Echo, &attrs));
    assert!(!KRequest::message_decodes(OveyOperation::ResolveCompletion, &[]));
    assert!(!KRequest::message_decodes(OveyOperation::StoreVirtPropertyPortLid, &attrs[..1]));
}

#[test]
fn replies_are_validated() {
    assert_eq!(validate_reply(30, OveyOperation::Echo, 30, OveyOperation::Echo), Ok(()));
    assert_eq!(
        validate_reply(30, OveyOperation::Echo, 2, OveyOperation::Echo).unwrap_err(),
        "Received Error! Netlink Message Type is \"error\" (2) instead of our family"
    );
    assert_eq!(
        validate_reply(30, OveyOperation::Echo, 31, OveyOperation::Echo).unwrap_err(),
        "Received data from wrong family?! is=31, expected=30"
    );
    assert_eq!(
        validate_reply(30, OveyOperation::Echo, 30, OveyOperation::DeviceInfo).unwrap_err(),
        "Received data (Ack) has wrong operation! is=30, expected=30"
    );
}

#[test]
fn old_style_decoding_helpers() {
    assert_eq!(bytes_to_string(b"\0\0ovey0\0\0"), "ovey0");
    assert_eq!(bytes_to_string(b"a\0b"), "a\0b");
    assert_eq!(bytes_to_string(b"\0\0"), "");
    assert_eq!(bytes_to_string("ä\0".as_bytes()), "ä");
    assert_eq!(byte_vector_to_u64(&0x0102_0304_0506_0708u64.to_ne_bytes()), 0x0102_0304_0506_0708);
}

#[test]
fn listed_devices_and_removal_outcomes() {
    let attrs = vec![
        attr(OveyAttribute::DeviceName, nstr("ovey0")),
        attr(OveyAttribute::ParentDeviceName, nstr("rxe0")),
        attr(OveyAttribute::NodeGuid, 5u64.to_be_bytes().to_vec()),
        attr(OveyAttribute::ParentNodeGuid, 6u64.to_be_bytes().to_vec()),
        attr(OveyAttribute::VirtNetUuidStr, nstr("c929e96d-6285-4528-b98e-b364d64790ae")),
    ];
    let d = OCPRecData::new(&attrs);
    assert_eq!(
        device_info(&d),
        Some(DeviceInfo {
            dev_name: "ovey0".to_string(),
            parent_dev_name: "rxe0".to_string(),
            guid: 5,
            lid: 42,
            parent_guid: 6,
            virtual_network_id: 0xc929e96d_6285_4528_b98e_b364d64790ae,
        })
    );
    let bad = OCPRecData::new(&[attr(OveyAttribute::VirtNetUuidStr, nstr("not a uuid"))]);
    assert_eq!(device_info(&bad), None);

    let results: Vec<Result<u8, String>> = vec![Ok(1), Err("first".to_string()), Err("second".to_string())];
    assert_eq!(first_error(&results), Some("first".to_string()));
    let fine: Vec<Result<u8, String>> = vec![Ok(1)];
    assert_eq!(first_error(&fine), None);

    let st = deletion_state(&Ok::<(), String>(()), &Err::<(), String>("gone".to_string()));
    assert!(st.deletion_local_successfully);
    assert_eq!(st.deletion_local_info_msg, None);
    assert!(!st.deletion_coordinator_successfully);
    assert_eq!(st.deletion_coordinator_info_msg, Some("gone".to_string()));
}

#[test]
fn kernel_guids_arrive_big_endian() {
    let attrs = vec![
        attr(OveyAttribute::DeviceName, b"\0ovey0\0\0".to_vec()),
        attr(OveyAttribute::NodeGuid, vec![0xde, 0xad, 0xbe, 0xef, 0, 0, 0, 0]),
    ];
    let d = OCPRecData::new(&attrs);
    assert_eq!(d.node_guid(), Some(0xdead_beef_0000_0000));
    assert_eq!(d.device_name().unwrap(), "ovey0");
    assert_eq!(d.parent_node_guid(), None);
    assert_eq!(d.msg(), None);
}

#[test]
fn device_requests_carry_their_attributes() {
    let r = create_device_request("ovey0", "rxe0", 0xdead_beef_0000_0001, "c929e96d-6285-4528-b98e-b364d64790ae");
    assert_eq!(r.len(), 4);
    assert_eq!(r[0].kind, OveyAttribute::DeviceName);
    assert_eq!(r[0].payload, nstr("ovey0"));
    assert_eq!(r[1].kind, OveyAttribute::ParentDeviceName);
    assert_eq!(r[1].payload, nstr("rxe0"));
    assert_eq!(r[2].kind, OveyAttribute::NodeGuid);
    assert_eq!(r[2].payload, vec![0xde, 0xad, 0xbe, 0xef, 0, 0, 0, 1]);
    assert_eq!(r[3].kind, OveyAttribute::VirtNetUuidStr);
    let back = OCPRecData::new(&r);
    assert_eq!(back.node_guid(), Some(0xdead_beef_0000_0001));
    assert_eq!(back.device_name().unwrap(), "ovey0");
    assert_eq!(back.parent_device_name().unwrap(), "rxe0");
    assert_eq!(back.virt_network_uuid_str().unwrap(), "c929e96d-6285-4528-b98e-b364d64790ae");
    let d = device_name_request("ovey1");
    assert_eq!(d.len(), 1);
    assert_eq!(d[0].kind, OveyAttribute::DeviceName);
    assert_eq!(d[0].payload, nstr("ovey1"));
    let e = echo_request("hello kernel");
    assert_eq!(e[0].kind, OveyAttribute::Msg);
    assert_eq!(OCPRecData::new(&e).msg().unwrap(), "hello kernel");
}

#[test]
fn listing_reports_the_first_failed_device() {
    assert_eq!(
        device_info_error("ovey0", "boom"),
        "Device not found. Could not fetch info for device 'ovey0' via OCP. err='boom'"
    );
    let attrs = vec![
        attr(OveyAttribute::DeviceName, nstr("ovey0")),
        attr(OveyAttribute::ParentDeviceName, nstr("rxe0")),
        attr(OveyAttribute::NodeGuid, 5u64.to_be_bytes().to_vec()),
        attr(OveyAttribute::ParentNodeGuid, 6u64.to_be_bytes().to_vec()),
        attr(OveyAttribute::VirtNetUuidStr, nstr("c929e96d-6285-4528-b98e-b364d64790ae")),
    ];
    let names = vec!["ovey0".to_string(), "ovey1".to_string(), "ovey2".to_string()];
    let fetched: Vec<Result<OCPRecData, String>> = vec![
        Ok(OCPRecData::new(&attrs)),
        Err("no such device".to_string()),
        Err("later".to_string()),
    ];
    assert_eq!(
        list_devices(&names, &fetched),
        Err("Device not found. Could not fetch info for device 'ovey1' via OCP. err='no such device'".to_string())
    );
    let one: Vec<Result<OCPRecData, String>> = vec![Ok(OCPRecData::new(&attrs))];
    let listed = list_devices(&names[..1], &one).unwrap();
    assert_eq!(listed.len(), 1);
    assert_eq!(listed[0].dev_name, "ovey0");
    assert_eq!(listed[0].guid, 5);
    assert_eq!(listed[0].lid, 42);
    assert_eq!(list_devices(&[], &[]), Ok(vec![]));
}

#[test]
fn checked_listing_refuses_incomplete_reports() {
    let names = vec!["ovey0".to_string()];
    let incomplete: Vec<Result<OCPRecData, String>> = vec![Ok(OCPRecData::new(&[attr(OveyAttribute::DeviceName, nstr("ovey0"))]))];
    assert!(list_devices_checked(&names, &incomplete).is_none());
    let failed: Vec<Result<OCPRecData, String>> = vec![Err("gone".to_string())];
    assert_eq!(
        list_devices_checked(&names, &failed),
        Some(Err("Device not found. Could not fetch info for device 'ovey0' via OCP. err='gone'".to_string()))
    );
    assert!(list_devices_checked(&names, &[]).is_none());
    assert_eq!(list_devices_checked(&[], &[]), Some(Ok(vec![])));
}

#[test]
fn device_creation_steps() {
    let (s1, a1) = create_device_step(CreateState::Start, CreateEvent::Begin, "dead:beef:0000:0001");
    assert_eq!(s1, CreateState::CreatingLocally);
    assert!(matches!(a1, CreateAction::CreateLocally { guid_he: 0xdead_beef_0000_0001 }));
    let (s2, a2) = create_device_step(s1, CreateEvent::LocallyCreated(Ok(())), "dead:beef:0000:0001");
    assert_eq!(s2, CreateState::FetchingInfo);
    assert!(matches!(a2, CreateAction::FetchInfo));
    let (s3, a3) = create_device_step(s2, CreateEvent::Info(Ok(Some(0xabc0_afaf_34b5_0015))), "x");
    assert_eq!(s3, CreateState::Registering);
    match a3 {
        CreateAction::Register { physical_guid } => assert_eq!(physical_guid, "abc0:afaf:34b5:0015"),
        other => panic!("unexpected {:?}", other),
    }
    let (s4, a4) = create_device_step(s3, CreateEvent::Registered(Err("Device already registered: x".to_string())), "x");
    assert_eq!(s4, CreateState::Done);
    assert!(matches!(a4, CreateAction::Finish(Err(ref m)) if m == "Device already registered: x"));
    let (_, a5) = create_device_step(CreateState::CreatingLocally, CreateEvent::LocallyCreated(Err("busy".to_string())), "x");
    assert!(matches!(a5, CreateAction::Finish(Err(ref m)) if m == "failed to create device: busy"));
    let (_, a6) = create_device_step(CreateState::FetchingInfo, CreateEvent::Info(Err("no".to_string())), "x");
    assert!(matches!(a6, CreateAction::Finish(Err(ref m)) if m == "Failed to get device info: no"));
    let (_, a7) = create_device_step(CreateState::Registering, CreateEvent::Registered(Ok(())), "x");
    assert!(matches!(a7, CreateAction::Finish(Ok(()))));
}

#[test]
fn deletion_targets_come_from_the_kernel_report() {
    let attrs = vec![
        attr(OveyAttribute::NodeGuid, 0xdead_beef_0000_0001u64.to_be_bytes().to_vec()),
        attr(OveyAttribute::VirtNetUuidStr, nstr("c929e96d-6285-4528-b98e-b364d64790ae")),
    ];
    let d = OCPRecData::new(&attrs);
    assert_eq!(
        deletion_target(&d),
        Ok((0xc929e96d_6285_4528_b98e_b364d64790ae, "dead:beef:0000:0001".to_string()))
    );
    let bad = OCPRecData::new(&[
        attr(OveyAttribute::NodeGuid, 1u64.to_be_bytes().to_vec()),
        attr(OveyAttribute::VirtNetUuidStr, nstr("not a uuid")),
    ]);
    assert!(deletion_target(&bad).unwrap_err().starts_with("Failed to convert to UUID: "));
    assert_eq!(parse_network_id("c929e96d-6285-4528-b98e-b364d64790ae"), Ok(0xc929e96d_6285_4528_b98e_b364d64790ae));
    assert!(parse_network_id("nope").is_err());
    assert_eq!(network_id_text(0xc929e96d_6285_4528_b98e_b364d64790ae), "c929e96d-6285-4528-b98e-b364d64790ae");
}

#[test]
fn daemon_requests_carry_native_numbers() {
    let s = socket_kind_request(OcpSocketKind::KernelInitiatedRequestsSocket);
    assert_eq!(s.len(), 1);
    assert_eq!(s[0].kind, OveyAttribute::SocketKind);
    assert_eq!(s[0].payload, 1u32.to_ne_bytes().to_vec());
    let c = resolve_completion_request(0x0102_0304_0506_0708);
    assert_eq!(c[0].kind, OveyAttribute::CompletionId);
    assert_eq!(c[0].payload, 0x0102_0304_0506_0708u64.to_ne_bytes().to_vec());
    let back = KRequest::from_message(OveyOperation::ResolveCompletion, &c);
    assert_eq!(back.id(), 0x0102_0304_0506_0708);
}
