//! The house: a name and its rooms, with the operations that change it, the
//! status resolver, and the report.

use crate::devices::{DeviceInfoProvider, Devices};
use crate::name_map::{is_listing, listing_of, NameMap};
use crate::room::Room;
use crate::text::{natural_numeral, natural_to_text};
use vstd::prelude::*;
use vstd::string::*;

verus! {

/// What a house is, apart from how it is stored: its name, and for every room
/// name the devices of that room by device name.
pub struct HouseView {
    pub name: Seq<char>,
    pub rooms: Map<Seq<char>, Map<Seq<char>, Devices>>,
}

/// Why a lookup in a house found nothing. Each case carries the name that was
/// looked for.
#[derive(Clone, Debug, PartialEq, Eq)]
pub enum SmartHouseError {
    DeviceNotFound(String),
    RoomNotExists(String),
}

/// The text that reports a room that is not in the house.
pub open spec fn room_missing_text(room: Seq<char>) -> Seq<char> {
    "room '"@ + room + "' does not exist"@
}

/// The text that reports a device that is not in its room.
pub open spec fn device_missing_text(name: Seq<char>) -> Seq<char> {
    "device '"@ + name + "' not found"@
}

impl SmartHouseError {
    /// The message of this error.
    pub open spec fn message_text(&self) -> Seq<char> {
        match self {
            SmartHouseError::DeviceNotFound(name) => device_missing_text(name@),
            SmartHouseError::RoomNotExists(room) => room_missing_text(room@),
        }
    }

    /// Renders the message of this error.
    pub fn message(&self) -> (text: String)
        ensures
            text@ == self.message_text(),
    {
        match self {
            SmartHouseError::DeviceNotFound(name) => {
                let mut text: String = String::from_str("device '");
                text.append(name.as_str());
                text.append("' not found");
                text
            },
            SmartHouseError::RoomNotExists(room) => {
                let mut text: String = String::from_str("room '");
                text.append(room.as_str());
                text.append("' does not exist");
                text
            },
        }
    }
}

/// A string slice as the standard library's `Debug` formatting writes it: in
/// double quotes, with the characters that need it escaped.
pub uninterp spec fn debug_quoted(name: Seq<char>) -> Seq<char>;

/// Formats `name` with `{:?}`, that is with the standard library's
/// `<str as Debug>::fmt`. Nothing is proved of this call. The contract claims
/// only that the text it gives depends on the characters of `name` and on
/// nothing else, and gives that text its name.
#[verifier::external_body]
fn quote(name: &str) -> (quoted: String)
    ensures
        quoted@ == debug_quoted(name@),
{
    format!("{:?}", name)
}

/// The first line of a report.
pub open spec fn heading_text(house: Seq<char>) -> Seq<char> {
    house + " report: \n\r"@
}

/// The line that opens a room's part of a report, given the quoted room name.
pub open spec fn room_line_text(quoted: Seq<char>) -> Seq<char> {
    " • "@ + quoted + ":\n\r"@
}

/// The line of the device that is listed at `position` (counted from one).
pub open spec fn device_line_text(position: nat, name: Seq<char>, status: Seq<char>) -> Seq<char> {
    "   "@ + natural_numeral(position) + ") "@ + name + ": "@ + status + "\n\r"@
}

/// The lines of the first `count` devices of a room, in listing order.
pub open spec fn device_lines(room: Map<Seq<char>, Devices>, count: nat) -> Seq<char>
    decreases count,
{
    if count == 0 {
        Seq::empty()
    } else {
        let name = listing_of(room.dom())[count - 1];
        device_lines(room, (count - 1) as nat) + device_line_text(
            count,
            name,
            room[name].status_text(),
        )
    }
}

/// A room's part of a report: its opening line, then a line for each device.
pub open spec fn room_block(name: Seq<char>, room: Map<Seq<char>, Devices>) -> Seq<char> {
    room_line_text(debug_quoted(name)) + device_lines(room, listing_of(room.dom()).len())
}

/// The parts of the first `count` rooms of a house, in listing order.
pub open spec fn room_blocks(rooms: Map<Seq<char>, Map<Seq<char>, Devices>>, count: nat) -> Seq<
    char,
>
    decreases count,
{
    if count == 0 {
        Seq::empty()
    } else {
        let name = listing_of(rooms.dom())[count - 1];
        room_blocks(rooms, (count - 1) as nat) + room_block(name, rooms[name])
    }
}

impl HouseView {
    /// The report of a house: the heading, then every room in name order, each
    /// followed by its devices in name order, numbered from one.
    pub open spec fn report_text(self) -> Seq<char> {
        heading_text(self.name) + room_blocks(self.rooms, listing_of(self.rooms.dom()).len())
    }

    /// What the status resolver answers for a room name and a device name.
    pub open spec fn status_text(self, room: Seq<char>, name: Seq<char>) -> Seq<char> {
        if !self.rooms.contains_key(room) {
            room_missing_text(room)
        } else if !self.rooms[room].contains_key(name) {
            device_missing_text(name)
        } else {
            self.rooms[room][name].status_text()
        }
    }

    /// The house after a request to add a room: unchanged if the name is taken.
    pub open spec fn with_room(self, name: Seq<char>, room: Map<Seq<char>, Devices>) -> HouseView {
        if self.rooms.contains_key(name) {
            self
        } else {
            HouseView { name: self.name, rooms: self.rooms.insert(name, room) }
        }
    }

    /// The house after a request to remove a room, which takes the room's
    /// devices with it.
    pub open spec fn without_room(self, name: Seq<char>) -> HouseView {
        HouseView { name: self.name, rooms: self.rooms.remove(name) }
    }

    /// Whether a device of that name can be added to that room: the room is
    /// there and has no device of that name yet.
    pub open spec fn admits_device(self, room: Seq<char>, name: Seq<char>) -> bool {
        self.rooms.contains_key(room) && !self.rooms[room].contains_key(name)
    }

    /// Whether that room is there and holds a device of that name.
    pub open spec fn has_device(self, room: Seq<char>, name: Seq<char>) -> bool {
        self.rooms.contains_key(room) && self.rooms[room].contains_key(name)
    }

    /// The house after a request to add a device: unchanged unless the room
    /// admits it.
    pub open spec fn with_device(self, room: Seq<char>, name: Seq<char>, device: Devices) -> HouseView {
        if self.admits_device(room, name) {
            HouseView {
                name: self.name,
                rooms: self.rooms.insert(room, self.rooms[room].insert(name, device)),
            }
        } else {
            self
        }
    }

    /// The house after a request to remove a device: unchanged unless the
    /// device is there.
    pub open spec fn without_device(self, room: Seq<char>, name: Seq<char>) -> HouseView {
        if self.has_device(room, name) {
            HouseView {
                name: self.name,
                rooms: self.rooms.insert(room, self.rooms[room].remove(name)),
            }
        } else {
            self
        }
    }
}

/// The opening line of a report.
pub fn heading(house: &str) -> (line: String)
    ensures
        line@ == heading_text(house@),
{
    let mut line: String = String::from_str(house);
    line.append(" report: \n\r");
    line
}

/// The line that opens a room's part of a report. `quoted` is the room name as
/// it is to appear.
pub fn room_line(quoted: &str) -> (line: String)
    ensures
        line@ == room_line_text(quoted@),
{
    let mut line: String = String::from_str(" • ");
    line.append(quoted);
    line.append(":\n\r");
    line
}

/// The line of one device in a report.
pub fn device_line(position: usize, name: &str, status: &str) -> (line: String)
    ensures
        line@ == device_line_text(position as nat, name@, status@),
{
    let mut line: String = String::from_str("   ");
    line.append(natural_to_text(position as u64).as_str());
    line.append(") ");
    line.append(name);
    line.append(": ");
    line.append(status);
    line.append("\n\r");
    line
}

/// A house: its name, which identifies it, and its rooms by name.
#[derive(Clone, Debug, PartialEq, Eq)]
pub struct SmartHouse {
    name: String,
    rooms: NameMap<Room>,
}

/// The devices of every room, by room name and device name.
pub open spec fn rooms_view(rooms: NameMap<Room>) -> Map<Seq<char>, Map<Seq<char>, Devices>> {
    Map::new(|room: Seq<char>| rooms@.contains_key(room), |room: Seq<char>| rooms@[room]@)
}

impl View for SmartHouse {
    type V = HouseView;

    closed spec fn view(&self) -> HouseView {
        HouseView { name: self.name@, rooms: rooms_view(self.rooms) }
    }
}

impl SmartHouse {
    /// A house of that name with those rooms.
    pub fn new(name: &str, rooms: NameMap<Room>) -> (house: Self)
        ensures
            house@ == (HouseView { name: name@, rooms: rooms_view(rooms) }),
    {
        SmartHouse { name: String::from_str(name), rooms }
    }

    /// The name of the house. It is given at construction and no operation
    /// changes it.
    pub fn name(&self) -> (name: &str)
        ensures
            name@ == self@.name,
    {
        self.name.as_str()
    }

    /// The room of that name, if the house has one.
    pub fn get_room(&self, name: &str) -> (room: Option<&Room>)
        ensures
            room is Some <==> self@.rooms.contains_key(name@),
            room matches Some(r) ==> r@ == self@.rooms[name@],
    {
        self.rooms.get(name)
    }

    /// The device of that name in that room, or which of the two is missing.
    pub fn get_device(&self, room_name: &str, name: &str) -> (found: Result<&Devices, SmartHouseError>)
        ensures
            match found {
                Ok(device) => self@.has_device(room_name@, name@) && *device
                    == self@.rooms[room_name@][name@],
                Err(SmartHouseError::RoomNotExists(missing)) => !self@.rooms.contains_key(room_name@)
                    && missing@ == room_name@,
                Err(SmartHouseError::DeviceNotFound(missing)) => self@.rooms.contains_key(room_name@)
                    && !self@.rooms[room_name@].contains_key(name@) && missing@ == name@,
            },
    {
        match self.get_room(room_name) {
            Some(room) => match room.devices.get(name) {
                Some(device) => Ok(device),
                None => Err(SmartHouseError::DeviceNotFound(String::from_str(name))),
            },
            None => Err(SmartHouseError::RoomNotExists(String::from_str(room_name))),
        }
    }

    /// The room names in ascending order, borrowed from the house.
    pub fn get_rooms<'a>(&'a self) -> (list: Vec<&'a str>)
        ensures
            is_listing(listing_of(self@.rooms.dom()), self@.rooms.dom()),
            list@.len() == listing_of(self@.rooms.dom()).len(),
            forall|i: int| 0 <= i < list@.len() ==> list@[i]@ == listing_of(self@.rooms.dom())[i],
    {
        assert(self@.rooms.dom() =~= self.rooms@.dom());
        self.rooms.names_borrowed()
    }

    /// The room names in ascending order, as strings of their own.
    pub fn get_rooms_list(&self) -> (list: Vec<String>)
        ensures
            is_listing(listing_of(self@.rooms.dom()), self@.rooms.dom()),
            list@.len() == listing_of(self@.rooms.dom()).len(),
            forall|i: int| 0 <= i < list@.len() ==> list@[i]@ == listing_of(self@.rooms.dom())[i],
    {
        assert(self@.rooms.dom() =~= self.rooms@.dom());
        self.rooms.names_owned()
    }

    /// The names of the devices of a room in ascending order, borrowed from the
    /// house.
    pub fn get_devices<'a>(&'a self, room_name: &str) -> (list: Vec<&'a str>)
        requires
            self@.rooms.contains_key(room_name@),
        ensures
            is_listing(
                listing_of(self@.rooms[room_name@].dom()),
                self@.rooms[room_name@].dom(),
            ),
            list@.len() == listing_of(self@.rooms[room_name@].dom()).len(),
            forall|i: int|
                0 <= i < list@.len() ==> list@[i]@ == listing_of(self@.rooms[room_name@].dom())[i],
    {
        match self.rooms.get(room_name) {
            Some(room) => room.devices.names_borrowed(),
            None => Vec::new(),
        }
    }

    /// The names of the devices of a room in ascending order, as strings of
    /// their own.
    pub fn get_devices_list(&self, room_name: &str) -> (list: Vec<String>)
        requires
            self@.rooms.contains_key(room_name@),
        ensures
            is_listing(
                listing_of(self@.rooms[room_name@].dom()),
                self@.rooms[room_name@].dom(),
            ),
            list@.len() == listing_of(self@.rooms[room_name@].dom()).len(),
            forall|i: int|
                0 <= i < list@.len() ==> list@[i]@ == listing_of(self@.rooms[room_name@].dom())[i],
    {
        match self.rooms.get(room_name) {
            Some(room) => room.devices.names_owned(),
            None => Vec::new(),
        }
    }

    /// Renders the report of the house.
    pub fn create_report(&self) -> (report: String)
        ensures
            report@ == self@.report_text(),
    {
        let mut report: String = heading(self.name.as_str());
        let n: usize = self.rooms.len();
        let ghost rooms = self@.rooms;
        assert(rooms.dom() =~= self.rooms@.dom());
        let mut i: usize = 0;
        while i < n
            invariant
                i <= n,
                n == self.rooms.names().len(),
                n == listing_of(rooms.dom()).len(),
                rooms == self@.rooms,
                rooms.dom() == self.rooms@.dom(),
                report@ == heading_text(self@.name) + room_blocks(rooms, i as nat),
            decreases n - i,
        {
            let room_name: &str = self.rooms.name_at(i);
            let room: &Room = self.rooms.value_at(i);
            let quoted: String = quote(room_name);
            let ghost before = report@;
            let ghost opening = room_line_text(debug_quoted(room_name@));
            report.append(room_line(quoted.as_str()).as_str());
            let m: usize = room.devices.len();
            let mut j: usize = 0;
            assert(report@ =~= before + (opening + device_lines(room@, 0)));
            while j < m
                invariant
                    j <= m,
                    m == room.devices.names().len(),
                    m == listing_of(room@.dom()).len(),
                    report@ == before + (opening + device_lines(room@, j as nat)),
                decreases m - j,
            {
                let device_name: &str = room.devices.name_at(j);
                let status: String = room.devices.value_at(j).status();
                let line: String = device_line(j + 1, device_name, status.as_str());
                let ghost lines = device_lines(room@, j as nat);
                report.append(line.as_str());
                assert(report@ =~= before + (opening + (lines + line@)));
                j = j + 1;
            }
            assert(report@ =~= heading_text(self@.name) + (room_blocks(rooms, i as nat) + room_block(
                room_name@,
                room@,
            )));
            i = i + 1;
        }
        report
    }

    /// Adds a room under a name that is not in use yet. Where the name is taken
    /// nothing changes: the room that has it stays as it is, devices and all.
    /// There is never an earlier room to hand back.
    pub fn add_room(&mut self, name: &str, room: Room) -> (previous: Option<Room>)
        ensures
            final(self)@ == old(self)@.with_room(name@, room@),
            previous is None,
    {
        if !self.rooms.contains_key(name) {
            self.rooms.insert(String::from_str(name), room);
            assert(self@.rooms =~= old(self)@.rooms.insert(name@, room@));
        }
        None
    }

    /// Removes the room of that name with all its devices, and hands it back.
    /// Where there is no such room nothing changes.
    pub fn remove_room(&mut self, name: &str) -> (removed: Option<Room>)
        ensures
            final(self)@ == old(self)@.without_room(name@),
            removed is Some <==> old(self)@.rooms.contains_key(name@),
            removed matches Some(room) ==> room@ == old(self)@.rooms[name@],
    {
        let removed = self.rooms.remove(name);
        assert(self@.rooms =~= old(self)@.rooms.remove(name@));
        removed
    }

    /// Adds a device to a room under a name that the room does not use yet.
    /// Where the room is missing or the name is taken nothing changes. There is
    /// never an earlier device to hand back.
    pub fn add_device(&mut self, room_name: &str, name: &str, device: Devices) -> (previous: Option<
        Devices,
    >)
        ensures
            final(self)@ == old(self)@.with_device(room_name@, name@, device),
            previous is None,
    {
        let admits: bool = match self.rooms.get(room_name) {
            Some(room) => !room.devices.contains_key(name),
            None => false,
        };
        if admits {
            match self.rooms.remove(room_name) {
                Some(room) => {
                    let mut room = room;
                    room.devices.insert(String::from_str(name), device);
                    self.rooms.insert(String::from_str(room_name), room);
                },
                None => {},
            }
            assert(self@.rooms =~= old(self)@.rooms.insert(
                room_name@,
                old(self)@.rooms[room_name@].insert(name@, device),
            ));
        }
        None
    }

    /// Removes a device from a room and hands it back. Where the room or the
    /// device is missing nothing changes.
    pub fn remove_device(&mut self, room_name: &str, name: &str) -> (removed: Option<Devices>)
        ensures
            final(self)@ == old(self)@.without_device(room_name@, name@),
            removed == if old(self)@.has_device(room_name@, name@) {
                Some(old(self)@.rooms[room_name@][name@])
            } else {
                None::<Devices>
            },
    {
        let present: bool = match self.rooms.get(room_name) {
            Some(room) => room.devices.contains_key(name),
            None => false,
        };
        if present {
            let mut removed: Option<Devices> = None;
            match self.rooms.remove(room_name) {
                Some(room) => {
                    let mut room = room;
                    removed = room.devices.remove(name);
                    self.rooms.insert(String::from_str(room_name), room);
                },
                None => {},
            }
            assert(self@.rooms =~= old(self)@.rooms.insert(
                room_name@,
                old(self)@.rooms[room_name@].remove(name@),
            ));
            removed
        } else {
            None
        }
    }
}

impl DeviceInfoProvider for SmartHouse {
    /// Resolves a room name and a device name to the device's status line. A
    /// missing room or device is no failure: the answer then says which name
    /// was not found.
    fn get_device_status(&self, room: &str, name: &str) -> (status: String)
        ensures
            status@ == self@.status_text(room@, name@),
    {
        match self.get_device(room, name) {
            Ok(device) => device.status(),
            Err(error) => error.message(),
        }
    }
}

} // verus!
