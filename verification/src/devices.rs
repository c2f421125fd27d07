//! The kinds of device a room can hold, and the status line each one reports.

use crate::text::{integer_to_text, numeral};
use vstd::prelude::*;
use vstd::string::*;

verus! {

/// A mains socket and the voltage it supplies.
#[derive(Clone, Copy, Debug, PartialEq, Eq, Structural)]
pub struct SmartSocket {
    pub voltage: i32,
}

/// A thermometer and the temperature it last measured.
#[derive(Clone, Copy, Debug, PartialEq, Eq, Structural)]
pub struct SmartThermometer {
    pub temperature: i32,
}

/// A speaker and its volume setting.
#[derive(Clone, Copy, Debug, PartialEq, Eq, Structural)]
pub struct SmartSpeaker {
    pub volume: i32,
}

/// A lamp that is switched on or off.
#[derive(Clone, Copy, Debug, PartialEq, Eq, Structural)]
pub struct SmartLamp {
    pub is_enabled: bool,
}

/// The closed set of device kinds. A device never changes; a room replaces it.
#[derive(Clone, Copy, Debug, PartialEq, Eq, Structural)]
pub enum Devices {
    SmartSocket(SmartSocket),
    SmartThermometer(SmartThermometer),
    SmartSpeaker(SmartSpeaker),
    SmartLamp(SmartLamp),
}

/// Anything that can say, in words, how a device in one of its rooms is doing.
/// The answer is always text: a room or device that is not there is reported in
/// the text itself.
pub trait DeviceInfoProvider {
    fn get_device_status(&self, room: &str, name: &str) -> String;
}

impl Devices {
    /// The status line of a device: a lamp is `enabled` or `disabled`; the other
    /// kinds give the name of their reading, a space, and the reading in decimal.
    pub open spec fn status_text(self) -> Seq<char> {
        match self {
            Devices::SmartLamp(lamp) => if lamp.is_enabled {
                "enabled"@
            } else {
                "disabled"@
            },
            Devices::SmartSocket(socket) => "voltage "@ + numeral(socket.voltage as int),
            Devices::SmartSpeaker(speaker) => "volume "@ + numeral(speaker.volume as int),
            Devices::SmartThermometer(thermometer) => "temperature "@ + numeral(
                thermometer.temperature as int,
            ),
        }
    }

    /// Renders the status line of this device.
    pub fn status(&self) -> (text: String)
        ensures
            text@ == self.status_text(),
    {
        match self {
            Devices::SmartLamp(lamp) => {
                if lamp.is_enabled {
                    String::from_str("enabled")
                } else {
                    String::from_str("disabled")
                }
            },
            Devices::SmartSocket(socket) => {
                let mut text: String = String::from_str("voltage ");
                text.append(integer_to_text(socket.voltage).as_str());
                text
            },
            Devices::SmartSpeaker(speaker) => {
                let mut text: String = String::from_str("volume ");
                text.append(integer_to_text(speaker.volume).as_str());
                text
            },
            Devices::SmartThermometer(thermometer) => {
                let mut text: String = String::from_str("temperature ");
                text.append(integer_to_text(thermometer.temperature).as_str());
                text
            },
        }
    }
}

} // verus!
