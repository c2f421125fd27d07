//! A smart house: rooms by name, devices by name within each room, a status
//! line for every device and a report of the whole house. A house in memory
//! mirrors a remote store, which is asked before any change is made.

pub mod devices;
pub mod house;
pub mod laws;
pub mod name_map;
pub mod room;
pub mod store;
pub mod sync;
pub mod text;

pub use crate::house::{HouseView, SmartHouse, SmartHouseError};
