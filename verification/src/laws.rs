//! What holds of every house, stated over the model of a house and proved.

use crate::devices::Devices;
use crate::house::{device_missing_text, room_missing_text, HouseView, SmartHouse};
use crate::sync::ChangeView;
use vstd::prelude::*;

verus! {

/// `part` occurs in `whole` as one piece.
pub open spec fn occurs_in(part: Seq<char>, whole: Seq<char>) -> bool {
    exists|before: Seq<char>, after: Seq<char>| whole == #[trigger] before.add(part).add(after)
}

/// Two rooms added under different names end up in the same house whichever is
/// added first: the room names are those of before and the two new ones, so the
/// listing of rooms, which depends on the names alone, is the same as well.
pub proof fn lemma_add_room_order_is_irrelevant(
    house: HouseView,
    first: Seq<char>,
    first_room: Map<Seq<char>, Devices>,
    second: Seq<char>,
    second_room: Map<Seq<char>, Devices>,
)
    requires
        first != second,
    ensures
        house.with_room(first, first_room).with_room(second, second_room) == house.with_room(
            second,
            second_room,
        ).with_room(first, first_room),
        house.with_room(first, first_room).with_room(second, second_room).rooms.dom()
            == house.rooms.dom().insert(first).insert(second),
{
    let one = house.with_room(first, first_room).with_room(second, second_room);
    let other = house.with_room(second, second_room).with_room(first, first_room);
    assert(one.rooms =~= other.rooms);
    assert(one.rooms.dom() =~= house.rooms.dom().insert(first).insert(second));
}

/// Adding a room under a name that is taken changes nothing: the house has the
/// same rooms as before, and each room, the one of that name included, has the
/// same devices.
pub proof fn lemma_add_room_under_taken_name(
    house: HouseView,
    name: Seq<char>,
    room: Map<Seq<char>, Devices>,
)
    requires
        house.rooms.contains_key(name),
    ensures
        house.with_room(name, room) == house,
{
}

/// Removing a device leaves every other device where it was, with the status
/// it had: the other devices of the same room, and all devices of other rooms.
pub proof fn lemma_remove_device_is_isolated(
    house: HouseView,
    room: Seq<char>,
    removed: Seq<char>,
    other_room: Seq<char>,
    other: Seq<char>,
)
    requires
        other_room != room || other != removed,
    ensures
        house.without_device(room, removed).has_device(other_room, other) == house.has_device(
            other_room,
            other,
        ),
        house.without_device(room, removed).status_text(other_room, other) == house.status_text(
            other_room,
            other,
        ),
{
}

/// After a removal the device is gone from its room, and the room is still
/// there.
pub proof fn lemma_removed_device_is_gone(house: HouseView, room: Seq<char>, name: Seq<char>)
    ensures
        !house.without_device(room, name).has_device(room, name),
        house.without_device(room, name).rooms.dom() == house.rooms.dom(),
{
    assert(house.without_device(room, name).rooms.dom() =~= house.rooms.dom());
}

/// No device outlives its room: once a room is removed, no device is found
/// under its name.
pub proof fn lemma_devices_leave_with_room(house: HouseView, room: Seq<char>, name: Seq<char>)
    ensures
        !house.without_room(room).has_device(room, name),
        house.without_room(room).status_text(room, name) == room_missing_text(room),
{
}

/// The status of a device in a room that is not there is a message in which
/// the room's name occurs; the status of a device that is not in its room is a
/// message in which the device's name occurs.
pub proof fn lemma_missing_names_are_reported(house: HouseView, room: Seq<char>, name: Seq<char>)
    ensures
        !house.rooms.contains_key(room) ==> occurs_in(room, house.status_text(room, name)),
        house.rooms.contains_key(room) && !house.rooms[room].contains_key(name) ==> occurs_in(
            name,
            house.status_text(room, name),
        ),
{
    if !house.rooms.contains_key(room) {
        assert(room_missing_text(room) == "room '"@.add(room).add("' does not exist"@));
    } else if !house.rooms[room].contains_key(name) {
        assert(device_missing_text(name) == "device '"@.add(name).add("' not found"@));
    }
}

/// The report is decided by what the house holds: two houses with the same
/// name, rooms and devices have the same report and answer every status query
/// alike, however each of them came to be.
pub proof fn lemma_report_depends_on_content_only(
    one: SmartHouse,
    other: SmartHouse,
    room: Seq<char>,
    name: Seq<char>,
)
    requires
        one@ == other@,
    ensures
        one@.report_text() == other@.report_text(),
        one@.status_text(room, name) == other@.status_text(room, name),
{
}

/// A change that the house refuses would not have changed it: what is checked
/// before the store is asked is exactly what decides whether the house changes.
pub proof fn lemma_refused_change_is_void(house: HouseView, change: ChangeView)
    requires
        change.refusal(house) is Some,
    ensures
        change.applied_to(house) == house,
{
    match change {
        ChangeView::RemoveRoom { name } => {
            assert(house.rooms.remove(name) =~= house.rooms);
        },
        _ => {},
    }
}

/// No change touches the name of the house.
pub proof fn lemma_name_is_kept(house: HouseView, change: ChangeView)
    ensures
        change.applied_to(house).name == house.name,
{
}

} // verus!
