//! How a remote operation is addressed: the request that carries it to the
//! server, and the update of the stored house document that the server makes of
//! it.

use crate::sync::{RemoteCall, RemoteCallView};
use vstd::prelude::*;
use vstd::string::*;

verus! {

/// The two kinds of request that the server accepts.
#[derive(Clone, Copy, Debug, PartialEq, Eq, Structural)]
pub enum HttpMethod {
    Post,
    Delete,
}

/// The path of a room inside a house document.
pub open spec fn room_path_text(room: Seq<char>) -> Seq<char> {
    "rooms."@ + room
}

/// The path of a device inside a house document.
pub open spec fn device_path_text(room: Seq<char>, device: Seq<char>) -> Seq<char> {
    "rooms."@ + room + ".devices."@ + device
}

/// The dotted path that addresses a room inside its house document.
pub fn room_path(room: &str) -> (path: String)
    ensures
        path@ == room_path_text(room@),
{
    let mut path: String = String::from_str("rooms.");
    path.append(room);
    path
}

/// The dotted path that addresses a device inside its house document.
pub fn device_path(room: &str, device: &str) -> (path: String)
    ensures
        path@ == device_path_text(room@, device@),
{
    let mut path: String = String::from_str("rooms.");
    path.append(room);
    path.append(".devices.");
    path.append(device);
    path
}

/// An update of the collection of house documents. `SetField` and `UnsetField`
/// change one field of one document and leave the rest of it alone; what
/// `SetField` stores at the path is the room or device that came with the
/// request.
#[derive(Clone, Debug, PartialEq, Eq)]
pub enum StoreUpdate {
    InsertHouse { house: String },
    DeleteHouse { house: String },
    SetField { house: String, path: String },
    UnsetField { house: String, path: String },
}

/// A store update, apart from how it is stored.
pub enum StoreUpdateView {
    InsertHouse { house: Seq<char> },
    DeleteHouse { house: Seq<char> },
    SetField { house: Seq<char>, path: Seq<char> },
    UnsetField { house: Seq<char>, path: Seq<char> },
}

impl View for StoreUpdate {
    type V = StoreUpdateView;

    open spec fn view(&self) -> StoreUpdateView {
        match self {
            StoreUpdate::InsertHouse { house } => StoreUpdateView::InsertHouse { house: house@ },
            StoreUpdate::DeleteHouse { house } => StoreUpdateView::DeleteHouse { house: house@ },
            StoreUpdate::SetField { house, path } => StoreUpdateView::SetField { house: house@, path: path@ },
            StoreUpdate::UnsetField { house, path } => StoreUpdateView::UnsetField {
                house: house@,
                path: path@,
            },
        }
    }
}

impl RemoteCallView {
    /// Creating is a `Post`, deleting a `Delete`.
    pub open spec fn method(self) -> HttpMethod {
        match self {
            RemoteCallView::CreateHouse { .. } => HttpMethod::Post,
            RemoteCallView::CreateRoom { .. } => HttpMethod::Post,
            RemoteCallView::CreateDevice { .. } => HttpMethod::Post,
            RemoteCallView::DeleteHouse { .. } => HttpMethod::Delete,
            RemoteCallView::DeleteRoom { .. } => HttpMethod::Delete,
            RemoteCallView::DeleteDevice { .. } => HttpMethod::Delete,
        }
    }

    /// The path of the request: the names of house, room and device, each
    /// behind the word for its level.
    pub open spec fn endpoint(self) -> Seq<char> {
        match self {
            RemoteCallView::CreateHouse { house } => "/houses"@,
            RemoteCallView::DeleteHouse { house } => "/houses/"@ + house,
            RemoteCallView::CreateRoom { house, room } => "/houses/"@ + house + "/rooms/"@ + room,
            RemoteCallView::DeleteRoom { house, room } => "/houses/"@ + house + "/rooms/"@ + room,
            RemoteCallView::CreateDevice { house, room, device } => "/houses/"@ + house
                + "/rooms/"@ + room + "/devices/"@ + device,
            RemoteCallView::DeleteDevice { house, room, device } => "/houses/"@ + house
                + "/rooms/"@ + room + "/devices/"@ + device,
        }
    }

    /// The update that carries the operation out: a house is inserted or
    /// deleted whole; a room or device is set or unset at its path.
    pub open spec fn store_update(self) -> StoreUpdateView {
        match self {
            RemoteCallView::CreateHouse { house } => StoreUpdateView::InsertHouse { house },
            RemoteCallView::DeleteHouse { house } => StoreUpdateView::DeleteHouse { house },
            RemoteCallView::CreateRoom { house, room } => StoreUpdateView::SetField {
                house,
                path: room_path_text(room),
            },
            RemoteCallView::DeleteRoom { house, room } => StoreUpdateView::UnsetField {
                house,
                path: room_path_text(room),
            },
            RemoteCallView::CreateDevice { house, room, device } => StoreUpdateView::SetField {
                house,
                path: device_path_text(room, device),
            },
            RemoteCallView::DeleteDevice { house, room, device } => StoreUpdateView::UnsetField {
                house,
                path: device_path_text(room, device),
            },
        }
    }
}

fn house_endpoint(house: &str) -> (path: String)
    ensures
        path@ == "/houses/"@ + house@,
{
    let mut path: String = String::from_str("/houses/");
    path.append(house);
    path
}

fn room_endpoint(house: &str, room: &str) -> (path: String)
    ensures
        path@ == "/houses/"@ + house@ + "/rooms/"@ + room@,
{
    let mut path: String = house_endpoint(house);
    path.append("/rooms/");
    path.append(room);
    path
}

fn device_endpoint(house: &str, room: &str, device: &str) -> (path: String)
    ensures
        path@ == "/houses/"@ + house@ + "/rooms/"@ + room@ + "/devices/"@ + device@,
{
    let mut path: String = room_endpoint(house, room);
    path.append("/devices/");
    path.append(device);
    path
}

impl RemoteCall {
    /// The kind of request that carries this operation.
    pub fn method(&self) -> (method: HttpMethod)
        ensures
            method == self@.method(),
    {
        match self {
            RemoteCall::CreateHouse { .. } => HttpMethod::Post,
            RemoteCall::CreateRoom { .. } => HttpMethod::Post,
            RemoteCall::CreateDevice { .. } => HttpMethod::Post,
            RemoteCall::DeleteHouse { .. } => HttpMethod::Delete,
            RemoteCall::DeleteRoom { .. } => HttpMethod::Delete,
            RemoteCall::DeleteDevice { .. } => HttpMethod::Delete,
        }
    }

    /// The path of the request that carries this operation.
    pub fn endpoint(&self) -> (path: String)
        ensures
            path@ == self@.endpoint(),
    {
        match self {
            RemoteCall::CreateHouse { house } => String::from_str("/houses"),
            RemoteCall::DeleteHouse { house } => house_endpoint(house.as_str()),
            RemoteCall::CreateRoom { house, room } => room_endpoint(house.as_str(), room.as_str()),
            RemoteCall::DeleteRoom { house, room } => room_endpoint(house.as_str(), room.as_str()),
            RemoteCall::CreateDevice { house, room, device } => device_endpoint(
                house.as_str(),
                room.as_str(),
                device.as_str(),
            ),
            RemoteCall::DeleteDevice { house, room, device } => device_endpoint(
                house.as_str(),
                room.as_str(),
                device.as_str(),
            ),
        }
    }

    /// The address of the request on the server at `base`.
    pub fn url(&self, base: &str) -> (address: String)
        ensures
            address@ == base@ + self@.endpoint(),
    {
        let mut address: String = String::from_str(base);
        address.append(self.endpoint().as_str());
        address
    }

    /// The update of the stored documents that carries this operation out.
    pub fn store_update(&self) -> (update: StoreUpdate)
        ensures
            update@ == self@.store_update(),
    {
        match self {
            RemoteCall::CreateHouse { house } => StoreUpdate::InsertHouse { house: house.clone() },
            RemoteCall::DeleteHouse { house } => StoreUpdate::DeleteHouse { house: house.clone() },
            RemoteCall::CreateRoom { house, room } => StoreUpdate::SetField {
                house: house.clone(),
                path: room_path(room.as_str()),
            },
            RemoteCall::DeleteRoom { house, room } => StoreUpdate::UnsetField {
                house: house.clone(),
                path: room_path(room.as_str()),
            },
            RemoteCall::CreateDevice { house, room, device } => StoreUpdate::SetField {
                house: house.clone(),
                path: device_path(room.as_str(), device.as_str()),
            },
            RemoteCall::DeleteDevice { house, room, device } => StoreUpdate::UnsetField {
                house: house.clone(),
                path: device_path(room.as_str(), device.as_str()),
            },
        }
    }
}

/// The message that reports a failure of the store, given the store's own
/// account of it.
pub fn database_error(detail: &str) -> (message: String)
    ensures
        message@ == "Database error: "@ + detail@,
{
    let mut message: String = String::from_str("Database error: ");
    message.append(detail);
    message
}

/// The message that confirms that a house was deleted from the store.
pub fn deleted_message(house: &str) -> (message: String)
    ensures
        message@ == "Smart house "@ + house@ + " successfully deleted!"@,
{
    let mut message: String = String::from_str("Smart house ");
    message.append(house);
    message.append(" successfully deleted!");
    message
}

/// The answer to a request: a status code, and the error message if it failed.
#[derive(Clone, Debug, PartialEq, Eq)]
pub struct Reply {
    pub status: u16,
    pub error: Option<String>,
}

/// Success is answered with status 200 and an empty payload, failure with
/// status 500 and the error message. There is nothing in between.
pub fn reply_to(outcome: Result<(), String>) -> (reply: Reply)
    ensures
        match outcome {
            Ok(_) => reply.status == 200 && reply.error is None,
            Err(message) => reply.status == 500 && reply.error == Some(message),
        },
{
    match outcome {
        Ok(_) => Reply { status: 200, error: None },
        Err(message) => Reply { status: 500, error: Some(message) },
    }
}

} // verus!
