//! A room: the devices in it, by name.

use crate::devices::Devices;
use crate::name_map::NameMap;
use vstd::prelude::*;

verus! {

/// A room owns its devices. Each goes by a name that is unique within the room.
#[derive(Clone, Debug, PartialEq, Eq)]
pub struct Room {
    pub devices: NameMap<Devices>,
}

impl View for Room {
    type V = Map<Seq<char>, Devices>;

    /// The device that each name stands for.
    open spec fn view(&self) -> Map<Seq<char>, Devices> {
        self.devices@
    }
}

impl Room {
    /// A room with no devices in it.
    pub fn new() -> (room: Self)
        ensures
            room@ == Map::<Seq<char>, Devices>::empty(),
    {
        Room { devices: NameMap::new() }
    }
}

} // verus!
