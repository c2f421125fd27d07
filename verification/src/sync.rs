//! Keeping a house in step with the remote store that is its system of record.
//!
//! Every change passes through the same stages. It is first checked against the
//! house as it stands; a change that the house refuses never reaches the store.
//! Otherwise the store is asked first, and only its success lets the change
//! touch the house. Nothing here performs the request: `prepare` says which one
//! to make, and `settle` takes its outcome.

use crate::devices::Devices;
use crate::house::{HouseView, SmartHouse};
use crate::room::Room;
use vstd::prelude::*;
use vstd::string::*;

verus! {

/// A change that a caller asks of a house.
#[derive(Clone, Debug, PartialEq, Eq)]
pub enum Change {
    AddRoom { name: String, room: Room },
    RemoveRoom { name: String },
    AddDevice { room: String, name: String, device: Devices },
    RemoveDevice { room: String, name: String },
}

/// A change, apart from how it is stored.
pub enum ChangeView {
    AddRoom { name: Seq<char>, room: Map<Seq<char>, Devices> },
    RemoveRoom { name: Seq<char> },
    AddDevice { room: Seq<char>, name: Seq<char>, device: Devices },
    RemoveDevice { room: Seq<char>, name: Seq<char> },
}

impl View for Change {
    type V = ChangeView;

    open spec fn view(&self) -> ChangeView {
        match self {
            Change::AddRoom { name, room } => ChangeView::AddRoom { name: name@, room: room@ },
            Change::RemoveRoom { name } => ChangeView::RemoveRoom { name: name@ },
            Change::AddDevice { room, name, device } => ChangeView::AddDevice {
                room: room@,
                name: name@,
                device: *device,
            },
            Change::RemoveDevice { room, name } => ChangeView::RemoveDevice {
                room: room@,
                name: name@,
            },
        }
    }
}

/// One of the six operations of the remote store, with the names it is about.
#[derive(Clone, Debug, PartialEq, Eq)]
pub enum RemoteCall {
    CreateHouse { house: String },
    DeleteHouse { house: String },
    CreateRoom { house: String, room: String },
    DeleteRoom { house: String, room: String },
    CreateDevice { house: String, room: String, device: String },
    DeleteDevice { house: String, room: String, device: String },
}

/// A remote operation, apart from how it is stored.
pub enum RemoteCallView {
    CreateHouse { house: Seq<char> },
    DeleteHouse { house: Seq<char> },
    CreateRoom { house: Seq<char>, room: Seq<char> },
    DeleteRoom { house: Seq<char>, room: Seq<char> },
    CreateDevice { house: Seq<char>, room: Seq<char>, device: Seq<char> },
    DeleteDevice { house: Seq<char>, room: Seq<char>, device: Seq<char> },
}

impl View for RemoteCall {
    type V = RemoteCallView;

    open spec fn view(&self) -> RemoteCallView {
        match self {
            RemoteCall::CreateHouse { house } => RemoteCallView::CreateHouse { house: house@ },
            RemoteCall::DeleteHouse { house } => RemoteCallView::DeleteHouse { house: house@ },
            RemoteCall::CreateRoom { house, room } => RemoteCallView::CreateRoom {
                house: house@,
                room: room@,
            },
            RemoteCall::DeleteRoom { house, room } => RemoteCallView::DeleteRoom {
                house: house@,
                room: room@,
            },
            RemoteCall::CreateDevice { house, room, device } => RemoteCallView::CreateDevice {
                house: house@,
                room: room@,
                device: device@,
            },
            RemoteCall::DeleteDevice { house, room, device } => RemoteCallView::DeleteDevice {
                house: house@,
                room: room@,
                device: device@,
            },
        }
    }
}

/// Why a house refuses a change without asking the store.
#[derive(Clone, Copy, Debug, PartialEq, Eq, Structural)]
pub enum Refusal {
    RoomNameTaken,
    RoomNotFound,
    DeviceNameTaken,
    DeviceNotFound,
}

/// What a change took out of the house.
#[derive(Clone, Debug, PartialEq, Eq)]
pub enum Taken {
    Nothing,
    Room(Room),
    Device(Devices),
}

/// How a change ended: made in the house after the store agreed, or given up,
/// with the house untouched and the change handed back.
#[derive(Clone, Debug, PartialEq, Eq)]
pub enum Settled {
    Applied(Taken),
    Aborted(Change),
}

impl ChangeView {
    /// The reason for which `house` refuses this change, if it does. Only the
    /// house as it stands is consulted, never the store.
    pub open spec fn refusal(self, house: HouseView) -> Option<Refusal> {
        match self {
            ChangeView::AddRoom { name, room } => if house.rooms.contains_key(name) {
                Some(Refusal::RoomNameTaken)
            } else {
                None
            },
            ChangeView::RemoveRoom { name } => if house.rooms.contains_key(name) {
                None
            } else {
                Some(Refusal::RoomNotFound)
            },
            ChangeView::AddDevice { room, name, device } => if !house.rooms.contains_key(room) {
                Some(Refusal::RoomNotFound)
            } else if house.rooms[room].contains_key(name) {
                Some(Refusal::DeviceNameTaken)
            } else {
                None
            },
            ChangeView::RemoveDevice { room, name } => if !house.rooms.contains_key(room) {
                Some(Refusal::RoomNotFound)
            } else if house.rooms[room].contains_key(name) {
                None
            } else {
                Some(Refusal::DeviceNotFound)
            },
        }
    }

    /// The operation that the store must carry out before this change is made
    /// in the house called `house`.
    pub open spec fn remote_call(self, house: Seq<char>) -> RemoteCallView {
        match self {
            ChangeView::AddRoom { name, room } => RemoteCallView::CreateRoom { house, room: name },
            ChangeView::RemoveRoom { name } => RemoteCallView::DeleteRoom { house, room: name },
            ChangeView::AddDevice { room, name, device } => RemoteCallView::CreateDevice {
                house,
                room,
                device: name,
            },
            ChangeView::RemoveDevice { room, name } => RemoteCallView::DeleteDevice {
                house,
                room,
                device: name,
            },
        }
    }

    /// The house after this change has been made in it.
    pub open spec fn applied_to(self, house: HouseView) -> HouseView {
        match self {
            ChangeView::AddRoom { name, room } => house.with_room(name, room),
            ChangeView::RemoveRoom { name } => house.without_room(name),
            ChangeView::AddDevice { room, name, device } => house.with_device(room, name, device),
            ChangeView::RemoveDevice { room, name } => house.without_device(room, name),
        }
    }
}

impl ChangeView {
    /// The name of the room that the change is about: the room it adds or
    /// removes, or the room of the device it adds or removes.
    pub open spec fn room_name(self) -> Seq<char> {
        match self {
            ChangeView::AddRoom { name, room } => name,
            ChangeView::RemoveRoom { name } => name,
            ChangeView::AddDevice { room, name, device } => room,
            ChangeView::RemoveDevice { room, name } => room,
        }
    }

    /// The name of what the change adds or removes, a room or a device.
    pub open spec fn subject_name(self) -> Seq<char> {
        match self {
            ChangeView::AddRoom { name, room } => name,
            ChangeView::RemoveRoom { name } => name,
            ChangeView::AddDevice { room, name, device } => name,
            ChangeView::RemoveDevice { room, name } => name,
        }
    }

    /// Whether the change adds or removes a device, not a room.
    pub open spec fn concerns_device(self) -> bool {
        self is AddDevice || self is RemoveDevice
    }

    /// The line that tells the caller why the change was refused.
    pub open spec fn notice_text(self, refusal: Refusal) -> Seq<char> {
        match refusal {
            Refusal::RoomNameTaken => "The name of the room must be unique!"@,
            Refusal::DeviceNameTaken => "The name of the device must be unique!"@,
            Refusal::DeviceNotFound => "Device '"@ + self.subject_name() + "' not found!"@,
            Refusal::RoomNotFound => if self.concerns_device() {
                "The room "@ + self.room_name() + " is not exists!"@
            } else {
                "The room "@ + self.room_name() + " not found!"@
            },
        }
    }
}

fn framed(before: &str, name: &str, after: &str) -> (line: String)
    ensures
        line@ == before@ + name@ + after@,
{
    let mut line: String = String::from_str(before);
    line.append(name);
    line.append(after);
    line
}

impl Change {
    /// The name of the room that this change is about.
    pub fn room_name(&self) -> (name: &str)
        ensures
            name@ == self@.room_name(),
    {
        match self {
            Change::AddRoom { name, room } => name.as_str(),
            Change::RemoveRoom { name } => name.as_str(),
            Change::AddDevice { room, name, device } => room.as_str(),
            Change::RemoveDevice { room, name } => room.as_str(),
        }
    }

    /// The name of what this change adds or removes.
    pub fn subject_name(&self) -> (name: &str)
        ensures
            name@ == self@.subject_name(),
    {
        match self {
            Change::AddRoom { name, room } => name.as_str(),
            Change::RemoveRoom { name } => name.as_str(),
            Change::AddDevice { room, name, device } => name.as_str(),
            Change::RemoveDevice { room, name } => name.as_str(),
        }
    }

    /// Whether this change adds or removes a device, not a room.
    pub fn concerns_device(&self) -> (answer: bool)
        ensures
            answer == self@.concerns_device(),
    {
        match self {
            Change::AddRoom { .. } => false,
            Change::RemoveRoom { .. } => false,
            Change::AddDevice { .. } => true,
            Change::RemoveDevice { .. } => true,
        }
    }

    /// The line that tells the caller why this change was refused.
    pub fn notice(&self, refusal: Refusal) -> (line: String)
        ensures
            line@ == self@.notice_text(refusal),
    {
        match refusal {
            Refusal::RoomNameTaken => String::from_str("The name of the room must be unique!"),
            Refusal::DeviceNameTaken => String::from_str("The name of the device must be unique!"),
            Refusal::DeviceNotFound => framed("Device '", self.subject_name(), "' not found!"),
            Refusal::RoomNotFound => {
                if self.concerns_device() {
                    framed("The room ", self.room_name(), " is not exists!")
                } else {
                    framed("The room ", self.room_name(), " not found!")
                }
            },
        }
    }
}

impl Taken {
    /// Whether this is what `change` takes out of `house`: the room or the
    /// device that a removal finds, and nothing in every other case.
    pub open spec fn is_taken_by(&self, change: ChangeView, house: HouseView) -> bool {
        match change {
            ChangeView::RemoveRoom { name } => if house.rooms.contains_key(name) {
                self matches Taken::Room(room) && room@ == house.rooms[name]
            } else {
                self is Nothing
            },
            ChangeView::RemoveDevice { room, name } => if house.has_device(room, name) {
                *self == Taken::Device(house.rooms[room][name])
            } else {
                self is Nothing
            },
            _ => self is Nothing,
        }
    }
}

impl SmartHouse {
    /// The store operation that registers this house.
    pub fn registration(&self) -> (call: RemoteCall)
        ensures
            call@ == (RemoteCallView::CreateHouse { house: self@.name }),
    {
        RemoteCall::CreateHouse { house: String::from_str(self.name()) }
    }

    /// The store operation that deletes the house of that name. The house in
    /// memory has no part in it and is left as it is.
    pub fn deletion(name: &str) -> (call: RemoteCall)
        ensures
            call@ == (RemoteCallView::DeleteHouse { house: name@ }),
    {
        RemoteCall::DeleteHouse { house: String::from_str(name) }
    }

    /// The first stage of a change: the house either refuses it, and says why,
    /// or names the store operation that has to succeed before the change is
    /// made.
    pub fn prepare(&self, change: &Change) -> (stage: Result<RemoteCall, Refusal>)
        ensures
            match stage {
                Ok(call) => change@.refusal(self@) is None && call@ == change@.remote_call(
                    self@.name,
                ),
                Err(refusal) => change@.refusal(self@) == Some(refusal),
            },
    {
        match change {
            Change::AddRoom { name, room } => {
                if self.get_room(name.as_str()).is_some() {
                    Err(Refusal::RoomNameTaken)
                } else {
                    Ok(
                        RemoteCall::CreateRoom {
                            house: String::from_str(self.name()),
                            room: name.clone(),
                        },
                    )
                }
            },
            Change::RemoveRoom { name } => {
                if self.get_room(name.as_str()).is_some() {
                    Ok(
                        RemoteCall::DeleteRoom {
                            house: String::from_str(self.name()),
                            room: name.clone(),
                        },
                    )
                } else {
                    Err(Refusal::RoomNotFound)
                }
            },
            Change::AddDevice { room, name, device } => {
                match self.get_room(room.as_str()) {
                    None => Err(Refusal::RoomNotFound),
                    Some(found) => {
                        if found.devices.contains_key(name.as_str()) {
                            Err(Refusal::DeviceNameTaken)
                        } else {
                            Ok(
                                RemoteCall::CreateDevice {
                                    house: String::from_str(self.name()),
                                    room: room.clone(),
                                    device: name.clone(),
                                },
                            )
                        }
                    },
                }
            },
            Change::RemoveDevice { room, name } => {
                match self.get_room(room.as_str()) {
                    None => Err(Refusal::RoomNotFound),
                    Some(found) => {
                        if found.devices.contains_key(name.as_str()) {
                            Ok(
                                RemoteCall::DeleteDevice {
                                    house: String::from_str(self.name()),
                                    room: room.clone(),
                                    device: name.clone(),
                                },
                            )
                        } else {
                            Err(Refusal::DeviceNotFound)
                        }
                    },
                }
            },
        }
    }

    /// Makes a change in the house and hands back what it took out.
    pub fn apply(&mut self, change: Change) -> (taken: Taken)
        ensures
            final(self)@ == change@.applied_to(old(self)@),
            taken.is_taken_by(change@, old(self)@),
    {
        match change {
            Change::AddRoom { name, room } => {
                self.add_room(name.as_str(), room);
                Taken::Nothing
            },
            Change::RemoveRoom { name } => {
                match self.remove_room(name.as_str()) {
                    Some(room) => Taken::Room(room),
                    None => Taken::Nothing,
                }
            },
            Change::AddDevice { room, name, device } => {
                self.add_device(room.as_str(), name.as_str(), device);
                Taken::Nothing
            },
            Change::RemoveDevice { room, name } => {
                match self.remove_device(room.as_str(), name.as_str()) {
                    Some(device) => Taken::Device(device),
                    None => Taken::Nothing,
                }
            },
        }
    }

    /// The last stage of a change, once the store has answered. On success the
    /// change is made; on failure the house stays exactly as it was and the
    /// change comes back to the caller.
    pub fn settle(&mut self, change: Change, remote_succeeded: bool) -> (end: Settled)
        ensures
            remote_succeeded ==> final(self)@ == change@.applied_to(old(self)@) && (
            end matches Settled::Applied(taken) && taken.is_taken_by(change@, old(self)@)),
            !remote_succeeded ==> *final(self) == *old(self) && end == Settled::Aborted(change),
    {
        if remote_succeeded {
            Settled::Applied(self.apply(change))
        } else {
            Settled::Aborted(change)
        }
    }
}

} // verus!
