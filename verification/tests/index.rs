use smart_house::devices::{DeviceInfoProvider, Devices, SmartLamp, SmartSocket, SmartSpeaker};
use smart_house::name_map::NameMap;
use smart_house::room::Room;
use smart_house::SmartHouse;

fn get_house() -> SmartHouse {
    let kitchen = Room {
        devices: NameMap::from_pairs(vec![
            (
                "Socket".to_string(),
                Devices::SmartSocket(SmartSocket { voltage: 110 }),
            ),
            (
                "Speaker".to_string(),
                Devices::SmartSpeaker(SmartSpeaker { volume: 3 }),
            ),
        ]),
    };
    SmartHouse::new(
        "Test smart house",
        NameMap::from_pairs(vec![("Kitchen".to_string(), kitchen)]),
    )
}

fn get_lower_case_house() -> SmartHouse {
    let kitchen = Room {
        devices: NameMap::from_pairs(vec![
            (
                "socket".to_string(),
                Devices::SmartSocket(SmartSocket { voltage: 110 }),
            ),
            (
                "speaker".to_string(),
                Devices::SmartSpeaker(SmartSpeaker { volume: 3 }),
            ),
        ]),
    };
    SmartHouse::new(
        "test_smart_house",
        NameMap::from_pairs(vec![("kitchen".to_string(), kitchen)]),
    )
}

#[test]
fn it_should_return_device_status() {
    let house = get_house();
    assert_eq!(house.get_device_status("Kitchen", "Socket"), "voltage 110");
}

#[test]
fn it_should_return_message_device_not_found() {
    let house = get_house();
    assert_eq!(
        house.get_device_status("Kitchen", "Lamp"),
        "device 'Lamp' not found"
    );
}

#[test]
fn lib_it_should_return_device_status() {
    let house = get_lower_case_house();
    assert_eq!(house.get_device_status("kitchen", "socket"), "voltage 110");
}

#[test]
fn lib_it_should_return_message_device_not_found() {
    let house = get_lower_case_house();
    assert_eq!(
        house.get_device_status("kitchen", "lamp"),
        "device 'lamp' not found"
    );
}

#[test]
fn it_should_return_name() {
    let house = get_house();
    assert_eq!(house.name(), "Test smart house");
}

#[test]
fn it_should_return_rooms_list() {
    let house = get_house();
    assert_eq!(
        format!("{:?}", house.get_rooms_list()),
        format!("{:?}", ["Kitchen"])
    );
}

#[test]
fn it_should_return_devices_list() {
    let house = get_house();
    assert_eq!(
        format!("{:?}", house.get_devices_list("Kitchen")),
        format!("{:?}", ["Socket", "Speaker"])
    );
}

#[test]
fn it_should_return_report() {
    let house = get_house();
    assert!(house
        .create_report()
        .contains("Test smart house report: \n\r"));
}

#[test]
fn it_should_add_room() {
    let mut house = get_house();
    let hall = Room {
        devices: NameMap::from_pairs(vec![]),
    };
    house.add_room("Hall", hall);
    assert_eq!(
        format!("{:?}", house.get_rooms_list()),
        format!("{:?}", ["Hall", "Kitchen"])
    );
}

#[test]
fn it_should_remove_room() {
    let mut house = get_house();

    house.remove_room("Kitchen");
    assert_eq!(format!("{:?}", house.get_rooms_list()), format!("[]"));
}

#[test]
fn it_should_add_device() {
    let mut house = get_house();

    house.add_device(
        "Kitchen",
        "Lamp",
        Devices::SmartLamp(SmartLamp { is_enabled: true }),
    );
    assert_eq!(
        format!("{:?}", house.get_devices_list("Kitchen")),
        format!("{:?}", ["Lamp", "Socket", "Speaker"])
    );
}

#[test]
fn it_should_remove_device() {
    let mut house = get_house();
    house.remove_device("Kitchen", "Speaker");
    assert_eq!(
        format!("{:?}", house.get_devices_list("Kitchen")),
        format!("{:?}", ["Socket"])
    );
}

#[test]
fn index_it_should_return_name() {
    let house = get_lower_case_house();
    assert_eq!(house.name(), "test_smart_house");
}

#[test]
fn index_it_should_return_rooms_list() {
    let house = get_lower_case_house();
    assert_eq!(
        format!("{:?}", house.get_rooms_list()),
        format!("{:?}", ["kitchen"])
    );
}

#[test]
fn index_it_should_return_devices_list() {
    let house = get_lower_case_house();
    assert_eq!(
        format!("{:?}", house.get_devices_list("kitchen")),
        format!("{:?}", ["socket", "speaker"])
    );
}

#[test]
fn index_it_should_return_report() {
    let house = get_lower_case_house();
    assert!(house
        .create_report()
        .contains("test_smart_house report: \n\r"));
}

#[test]
fn index_it_should_add_room() {
    let mut house = get_lower_case_house();
    let hall = Room {
        devices: NameMap::from_pairs(vec![]),
    };
    house.add_room("hall", hall);
    assert_eq!(
        format!("{:?}", house.get_rooms_list()),
        format!("{:?}", ["hall", "kitchen"])
    );
}

#[test]
fn index_it_should_remove_room() {
    let mut house = get_lower_case_house();

    house.remove_room("kitchen");
    assert_eq!(format!("{:?}", house.get_rooms_list()), format!("[]"));
}

#[test]
fn index_it_should_add_device() {
    let mut house = get_lower_case_house();

    house.add_device(
        "kitchen",
        "lamp",
        Devices::SmartLamp(SmartLamp { is_enabled: true }),
    );
    assert_eq!(
        format!("{:?}", house.get_devices_list("kitchen")),
        format!("{:?}", ["lamp", "socket", "speaker"])
    );
}

#[test]
fn index_it_should_remove_device() {
    let mut house = get_lower_case_house();
    house.remove_device("kitchen", "speaker");
    assert_eq!(
        format!("{:?}", house.get_devices_list("kitchen")),
        format!("{:?}", ["socket"])
    );
}
