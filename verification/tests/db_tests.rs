use std::collections::HashMap;
use ovey::coordinator::data::{
    VirtualizedDeviceInputBuilder, VirtualizedDeviceInput, VirtualizedDevice, VirtualizedDeviceDTO,
    InitDataConfiguration,
};
use ovey::coordinator::db::{
    Db, check_device_is_allowed, db_get_all_data, db_get_network_data, db_get_device_data,
    db_register_network, db_add_device_to_network, db_delete_device_from_network,
};
use ovey::coordinator::errors::CoordinatorRestError;
use ovey::coordinator::urls::{build_add_device_url, build_network_url, build_device_url};

const NET: u128 = 0xc929e96d_6285_4528_b98e_b364d64790ae;

#[test]
fn builder_works() {
    let foo = VirtualizedDeviceInputBuilder::default()
        .virtual_device_guid_string("1000:0000:0000:0000")
        .physical_device_guid_string("3000:0000:0000:0000")
        .parent_device_name("rxe0")
        .device_name("ovey0")
        .build()
        .unwrap();
    println!("{:#?}", foo);
    assert_eq!(foo.virtual_device_guid_string(), "1000:0000:0000:0000");
    assert_eq!(foo.physical_device_guid_string(), "3000:0000:0000:0000");
    assert_eq!(foo.device_name(), "ovey0");
    assert_eq!(foo.parent_device_name(), "rxe0");
}

#[test]
fn builder_names_the_first_missing_field() {
    let err = VirtualizedDeviceInputBuilder::default().device_name("ovey0").build().unwrap_err();
    assert_eq!(err, "`virtual_device_guid_string` must be initialized");
    let err = VirtualizedDeviceInputBuilder::default()
        .virtual_device_guid_string("1000:0000:0000:0000")
        .physical_device_guid_string("3000:0000:0000:0000")
        .device_name("ovey0")
        .build()
        .unwrap_err();
    assert_eq!(err, "`parent_device_name` must be initialized");
}

fn input(v: &str) -> VirtualizedDeviceInput {
    VirtualizedDeviceInput::new(v.to_string(), "3000:0000:0000:0001".to_string(), "ovey0".to_string(), "rxe0".to_string())
}

fn config() -> InitDataConfiguration {
    let mut m = HashMap::new();
    m.insert(NET, vec!["dead:beef:0000:0001".to_string(), "dead:beef:0000:0002".to_string()]);
    InitDataConfiguration::new(m)
}

#[test]
fn device_and_dto_carry_the_guids() {
    let d = VirtualizedDevice::new(input("dead:beef:0000:0001"));
    assert_eq!(d.virtual_guid(), 0xdead_beef_0000_0001);
    assert_eq!(d.physical_guid(), 0x3000_0000_0000_0001);
    assert_eq!(d.virtual_device_name(), "ovey0");
    assert_eq!(d.physical_device_name(), "rxe0");
    assert_eq!(d.qp_num(), 0);
    let dto = VirtualizedDeviceDTO::new(&d);
    assert_eq!(dto.virtual_device_guid_string(), "dead:beef:0000:0001");
    assert_eq!(dto.virtual_device_guid_be(), 0xdead_beef_0000_0001);
    assert_eq!(dto.virtual_device_guid_le(), 0x0100_0000_efbe_adde);
    assert_eq!(dto.physical_device_guid_string(), "3000:0000:0000:0001");
    assert_eq!(dto.physical_device_guid_le(), 0x0100_0000_0000_0030);
    assert_eq!(dto.device_name(), "ovey0");
    assert_eq!(dto.parent_device_name(), "rxe0");
}

#[test]
fn allowed_devices_follow_the_configuration() {
    let cfg = config();
    assert_eq!(check_device_is_allowed(&cfg, NET, "dead:beef:0000:0001"), Ok(()));
    assert_eq!(
        check_device_is_allowed(&cfg, NET, "dead:beef:0000:0009"),
        Err(CoordinatorRestError::VirtDeviceGuidNotSupported(NET, "dead:beef:0000:0009".to_string()))
    );
    assert_eq!(check_device_is_allowed(&cfg, 1, "x"), Err(CoordinatorRestError::VirtNetworkNotSupported(1)));
    assert_eq!(cfg.networks().len(), 1);
}

#[test]
fn registry_add_get_delete() {
    let cfg = config();
    let mut db = Db::new();
    assert_eq!(
        db_add_device_to_network(&mut db, &cfg, NET, input("dead:beef:0000:0001")).unwrap_err(),
        CoordinatorRestError::VirtNetworkNotSupported(NET)
    );
    assert_eq!(db_register_network(&mut db, NET), Ok(()));
    assert_eq!(
        db_register_network(&mut db, NET).unwrap_err(),
        "Network with id c929e96d-6285-4528-b98e-b364d64790ae already exists!"
    );
    let added = db_add_device_to_network(&mut db, &cfg, NET, input("dead:beef:0000:0001")).unwrap();
    assert_eq!(added.virtual_device_guid_string(), "dead:beef:0000:0001");
    assert_eq!(
        db_add_device_to_network(&mut db, &cfg, NET, input("dead:beef:0000:0001")).unwrap_err(),
        CoordinatorRestError::VirtDeviceAlreadyRegistered(NET, "dead:beef:0000:0001".to_string())
    );
    assert_eq!(
        db_add_device_to_network(&mut db, &cfg, NET, input("dead:beef:0000:0003")).unwrap_err(),
        CoordinatorRestError::VirtDeviceGuidNotSupported(NET, "dead:beef:0000:0003".to_string())
    );
    db_add_device_to_network(&mut db, &cfg, NET, input("dead:beef:0000:0002")).unwrap();
    let got = db_get_device_data(&db, NET, "dead:beef:0000:0001").unwrap();
    assert_eq!(got.virtual_device_guid_be(), added.virtual_device_guid_be());
    assert_eq!(db_get_network_data(&db, NET).unwrap().len(), 2);
    let all = db_get_all_data(&db);
    assert_eq!(all.len(), 1);
    assert_eq!(all[0].0, NET);
    assert_eq!(all[0].1.len(), 2);
    let removed = db_delete_device_from_network(&mut db, NET, "dead:beef:0000:0001").unwrap();
    assert_eq!(removed.virtual_device_guid_string(), "dead:beef:0000:0001");
    assert_eq!(
        db_get_device_data(&db, NET, "dead:beef:0000:0001").unwrap_err(),
        CoordinatorRestError::VirtDeviceNotYetRegistered(NET, "dead:beef:0000:0001".to_string())
    );
    assert_eq!(
        db_delete_device_from_network(&mut db, NET, "dead:beef:0000:0001").unwrap_err(),
        CoordinatorRestError::VirtDeviceNotYetRegistered(NET, "dead:beef:0000:0001".to_string())
    );
    assert_eq!(db_get_network_data(&db, 5).unwrap_err(), CoordinatorRestError::VirtNetworkNotSupported(5));
}

#[test]
fn coordinator_urls() {
    assert_eq!(build_add_device_url(NET), "/network/c929e96d-6285-4528-b98e-b364d64790ae/device");
    assert_eq!(build_network_url(NET), "/network/c929e96d-6285-4528-b98e-b364d64790ae");
    assert_eq!(
        build_device_url(NET, "dead:beef:0000:0001"),
        "/network/c929e96d-6285-4528-b98e-b364d64790ae/device/dead:beef:0000:0001"
    );
}

#[test]
fn coordinator_paths_hang_together() {
    let n: u128 = 0xc929e96d_6285_4528_b98e_b364d64790ae;
    let net = build_network_url(n);
    assert_eq!(net, "/network/c929e96d-6285-4528-b98e-b364d64790ae");
    assert_eq!(build_add_device_url(n), format!("{}/device", net));
    assert_eq!(build_device_url(n, "dead:beef:0000:0001"), format!("{}/device/dead:beef:0000:0001", net));
    assert_eq!(build_device_url(n, "{network}"), format!("{}/device/{{network}}", net));
}

#[test]
fn dto_gives_back_the_registration() {
    let input = VirtualizedDeviceInput::new(
        "dead:beef:0000:0001".to_string(),
        "0000:0000:abcd:0002".to_string(),
        "ovey0".to_string(),
        "rxe0".to_string(),
    );
    let dto = VirtualizedDeviceDTO::new(&VirtualizedDevice::new(input));
    assert_eq!(dto.virtual_device_guid_string(), "dead:beef:0000:0001");
    assert_eq!(dto.physical_device_guid_string(), "0000:0000:abcd:0002");
    assert_eq!(dto.device_name(), "ovey0");
    assert_eq!(dto.parent_device_name(), "rxe0");
}
