use smart_house::devices::{Devices, SmartLamp, SmartSocket};
use smart_house::name_map::NameMap;
use smart_house::room::Room;
use smart_house::store::{
    database_error, deleted_message, device_path, reply_to, room_path, HttpMethod, Reply,
    StoreUpdate,
};
use smart_house::sync::{Change, Refusal, RemoteCall, Settled, Taken};
use smart_house::SmartHouse;

fn kitchen_house() -> SmartHouse {
    let mut kitchen = Room::new();
    kitchen.devices.insert(
        "socket".to_string(),
        Devices::SmartSocket(SmartSocket { voltage: 110 }),
    );
    let mut rooms = NameMap::new();
    rooms.insert("kitchen".to_string(), kitchen);
    SmartHouse::new("home", rooms)
}

fn lamp() -> Devices {
    Devices::SmartLamp(SmartLamp { is_enabled: true })
}

fn add_room(name: &str) -> Change {
    Change::AddRoom {
        name: name.to_string(),
        room: Room::new(),
    }
}

fn remove_room(name: &str) -> Change {
    Change::RemoveRoom {
        name: name.to_string(),
    }
}

fn add_device(room: &str, name: &str) -> Change {
    Change::AddDevice {
        room: room.to_string(),
        name: name.to_string(),
        device: lamp(),
    }
}

fn remove_device(room: &str, name: &str) -> Change {
    Change::RemoveDevice {
        room: room.to_string(),
        name: name.to_string(),
    }
}

#[test]
fn a_change_that_the_house_refuses_never_reaches_the_store() {
    let house = kitchen_house();
    assert_eq!(house.prepare(&add_room("kitchen")), Err(Refusal::RoomNameTaken));
    assert_eq!(house.prepare(&remove_room("hall")), Err(Refusal::RoomNotFound));
    assert_eq!(
        house.prepare(&add_device("hall", "lamp")),
        Err(Refusal::RoomNotFound)
    );
    assert_eq!(
        house.prepare(&add_device("kitchen", "socket")),
        Err(Refusal::DeviceNameTaken)
    );
    assert_eq!(
        house.prepare(&remove_device("hall", "socket")),
        Err(Refusal::RoomNotFound)
    );
    assert_eq!(
        house.prepare(&remove_device("kitchen", "lamp")),
        Err(Refusal::DeviceNotFound)
    );
}

#[test]
fn an_admitted_change_names_its_store_operation() {
    let house = kitchen_house();
    assert_eq!(
        house.prepare(&add_room("hall")),
        Ok(RemoteCall::CreateRoom {
            house: "home".to_string(),
            room: "hall".to_string()
        })
    );
    assert_eq!(
        house.prepare(&remove_room("kitchen")),
        Ok(RemoteCall::DeleteRoom {
            house: "home".to_string(),
            room: "kitchen".to_string()
        })
    );
    assert_eq!(
        house.prepare(&add_device("kitchen", "lamp")),
        Ok(RemoteCall::CreateDevice {
            house: "home".to_string(),
            room: "kitchen".to_string(),
            device: "lamp".to_string()
        })
    );
    assert_eq!(
        house.prepare(&remove_device("kitchen", "socket")),
        Ok(RemoteCall::DeleteDevice {
            house: "home".to_string(),
            room: "kitchen".to_string(),
            device: "socket".to_string()
        })
    );
    assert_eq!(
        house.registration(),
        RemoteCall::CreateHouse {
            house: "home".to_string()
        }
    );
    assert_eq!(
        SmartHouse::deletion("home"),
        RemoteCall::DeleteHouse {
            house: "home".to_string()
        }
    );
}

#[test]
fn a_failed_store_call_leaves_the_house_untouched() {
    let mut house = kitchen_house();
    let end = house.settle(add_room("hall"), false);
    assert_eq!(end, Settled::Aborted(add_room("hall")));
    assert_eq!(house, kitchen_house());
    let end = house.settle(remove_device("kitchen", "socket"), false);
    assert_eq!(end, Settled::Aborted(remove_device("kitchen", "socket")));
    assert_eq!(house, kitchen_house());
}

#[test]
fn a_successful_store_call_lets_the_change_through() {
    let mut house = kitchen_house();
    assert_eq!(
        house.settle(add_room("hall"), true),
        Settled::Applied(Taken::Nothing)
    );
    assert_eq!(house.get_rooms(), vec!["hall", "kitchen"]);
    assert_eq!(
        house.settle(add_device("hall", "lamp"), true),
        Settled::Applied(Taken::Nothing)
    );
    assert_eq!(house.get_devices("hall"), vec!["lamp"]);
    assert_eq!(
        house.settle(remove_device("hall", "lamp"), true),
        Settled::Applied(Taken::Device(lamp()))
    );
    assert_eq!(
        house.settle(remove_room("hall"), true),
        Settled::Applied(Taken::Room(Room::new()))
    );
    assert_eq!(house, kitchen_house());
    assert_eq!(house.apply(remove_room("attic")), Taken::Nothing);
    assert_eq!(house, kitchen_house());
}

#[test]
fn requests_are_addressed_by_house_room_and_device() {
    let create_house = RemoteCall::CreateHouse {
        house: "home".to_string(),
    };
    let delete_house = SmartHouse::deletion("home");
    let create_room = RemoteCall::CreateRoom {
        house: "home".to_string(),
        room: "hall".to_string(),
    };
    let delete_room = RemoteCall::DeleteRoom {
        house: "home".to_string(),
        room: "hall".to_string(),
    };
    let create_device = RemoteCall::CreateDevice {
        house: "home".to_string(),
        room: "hall".to_string(),
        device: "lamp".to_string(),
    };
    let delete_device = RemoteCall::DeleteDevice {
        house: "home".to_string(),
        room: "hall".to_string(),
        device: "lamp".to_string(),
    };
    assert_eq!(create_house.endpoint(), "/houses");
    assert_eq!(delete_house.endpoint(), "/houses/home");
    assert_eq!(create_room.endpoint(), "/houses/home/rooms/hall");
    assert_eq!(delete_room.endpoint(), "/houses/home/rooms/hall");
    assert_eq!(create_device.endpoint(), "/houses/home/rooms/hall/devices/lamp");
    assert_eq!(delete_device.endpoint(), "/houses/home/rooms/hall/devices/lamp");
    assert_eq!(
        create_room.url("http://localhost:8080"),
        "http://localhost:8080/houses/home/rooms/hall"
    );
    assert_eq!(create_house.method(), HttpMethod::Post);
    assert_eq!(create_room.method(), HttpMethod::Post);
    assert_eq!(create_device.method(), HttpMethod::Post);
    assert_eq!(delete_house.method(), HttpMethod::Delete);
    assert_eq!(delete_room.method(), HttpMethod::Delete);
    assert_eq!(delete_device.method(), HttpMethod::Delete);
}

#[test]
fn store_updates_address_fields_by_dotted_path() {
    assert_eq!(room_path("kitchen"), "rooms.kitchen");
    assert_eq!(device_path("kitchen", "socket"), "rooms.kitchen.devices.socket");
    let house = "home".to_string();
    assert_eq!(
        RemoteCall::CreateHouse { house: house.clone() }.store_update(),
        StoreUpdate::InsertHouse { house: house.clone() }
    );
    assert_eq!(
        RemoteCall::DeleteHouse { house: house.clone() }.store_update(),
        StoreUpdate::DeleteHouse { house: house.clone() }
    );
    assert_eq!(
        RemoteCall::CreateRoom {
            house: house.clone(),
            room: "kitchen".to_string()
        }
        .store_update(),
        StoreUpdate::SetField {
            house: house.clone(),
            path: "rooms.kitchen".to_string()
        }
    );
    assert_eq!(
        RemoteCall::DeleteRoom {
            house: house.clone(),
            room: "kitchen".to_string()
        }
        .store_update(),
        StoreUpdate::UnsetField {
            house: house.clone(),
            path: "rooms.kitchen".to_string()
        }
    );
    assert_eq!(
        RemoteCall::CreateDevice {
            house: house.clone(),
            room: "kitchen".to_string(),
            device: "socket".to_string()
        }
        .store_update(),
        StoreUpdate::SetField {
            house: house.clone(),
            path: "rooms.kitchen.devices.socket".to_string()
        }
    );
    assert_eq!(
        RemoteCall::DeleteDevice {
            house: house.clone(),
            room: "kitchen".to_string(),
            device: "socket".to_string()
        }
        .store_update(),
        StoreUpdate::UnsetField {
            house,
            path: "rooms.kitchen.devices.socket".to_string()
        }
    );
}

#[test]
fn replies_are_success_or_failure_and_nothing_between() {
    assert_eq!(
        reply_to(Ok(())),
        Reply {
            status: 200,
            error: None
        }
    );
    assert_eq!(
        reply_to(Err(database_error("timeout"))),
        Reply {
            status: 500,
            error: Some("Database error: timeout".to_string())
        }
    );
    assert_eq!(
        deleted_message("home"),
        "Smart house home successfully deleted!"
    );
}

#[test]
fn a_refusal_is_told_in_words() {
    assert_eq!(
        add_room("kitchen").notice(Refusal::RoomNameTaken),
        "The name of the room must be unique!"
    );
    assert_eq!(
        remove_room("hall").notice(Refusal::RoomNotFound),
        "The room hall not found!"
    );
    assert_eq!(
        add_device("hall", "lamp").notice(Refusal::RoomNotFound),
        "The room hall is not exists!"
    );
    assert_eq!(
        add_device("kitchen", "socket").notice(Refusal::DeviceNameTaken),
        "The name of the device must be unique!"
    );
    assert_eq!(
        remove_device("hall", "socket").notice(Refusal::RoomNotFound),
        "The room hall is not exists!"
    );
    assert_eq!(
        remove_device("kitchen", "lamp").notice(Refusal::DeviceNotFound),
        "Device 'lamp' not found!"
    );
}
