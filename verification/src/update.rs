//! Inbound notification decoding: raw characteristic payloads to typed
//! updates.
//!
//! Decoding dispatches on the characteristic first and on a leading type
//! tag inside the payload second. A payload whose characteristic, tag or
//! length is not recognised decodes to nothing — decoding never fails the
//! caller, it degrades to "no update".

use vstd::prelude::*;
use crate::codec::{BATTERY, BUTTON, MOTION, MOTOR, POSITION, SERVICE, LIGHT, SOUND, CONFIG};

verus! {

/// Every update a cube reports. The posture and magnetic variants exist in
/// the type but have no active decode path: the bridge can forward them,
/// but no notification currently produces them.
#[derive(Clone, Copy, Debug, PartialEq, Eq, Structural)]
pub enum Update {
    Position { x_center: u16, y_center: u16, theta: u16, x_sensor: u16, y_sensor: u16 },
    Standard { standard: u32, theta: u16 },
    PositionMissed,
    StandardMissed,
    MotorTargetResponse { control: u8, response: u8 },
    MultiTargetResponse { control: u8, response: u8 },
    MotorSpeed { left_speed: u8, right_speed: u8 },
    Motion { horizontal: u8, collision: u8, double_tap: u8, posture: u8, shake: u8 },
    PostureEuler { roll: u16, pitch: u16, yaw: u16 },
    Magnetic { state: u8, strength: u8, forcex: i8, forcey: i8, forcez: i8 },
    Button { pressed: bool },
    Battery { level: u8 },
}

/// A 16-bit field read little-endian from two bytes.
pub open spec fn le16(lo: u8, hi: u8) -> u16 {
    (lo + hi * 256) as u16
}

/// A 32-bit field read little-endian from four bytes.
pub open spec fn le32(b0: u8, b1: u8, b2: u8, b3: u8) -> u32 {
    (b0 + b1 * 256 + b2 * 65536 + b3 * 16777216) as u32
}

/// What a notification payload decodes to, by characteristic and type tag.
/// Payloads too short for their tag, unknown tags and unknown
/// characteristics all decode to nothing.
pub open spec fn decode_spec(uuid: u128, v: Seq<u8>) -> Option<Update> {
    if uuid == POSITION {
        if v.len() >= 11 && v[0] == 0x01 {
            Some(
                Update::Position {
                    x_center: le16(v[1], v[2]),
                    y_center: le16(v[3], v[4]),
                    theta: le16(v[5], v[6]),
                    x_sensor: le16(v[7], v[8]),
                    y_sensor: le16(v[9], v[10]),
                },
            )
        } else if v.len() >= 7 && v[0] == 0x02 {
            Some(Update::Standard { standard: le32(v[1], v[2], v[3], v[4]), theta: le16(v[5], v[6]) })
        } else if v.len() >= 1 && v[0] == 0x03 {
            Some(Update::PositionMissed)
        } else if v.len() >= 1 && v[0] == 0x04 {
            Some(Update::StandardMissed)
        } else {
            None
        }
    } else if uuid == MOTOR {
        if v.len() >= 3 && v[0] == 0x83 {
            Some(Update::MotorTargetResponse { control: v[1], response: v[2] })
        } else if v.len() >= 3 && v[0] == 0x84 {
            Some(Update::MultiTargetResponse { control: v[1], response: v[2] })
        } else if v.len() >= 3 && v[0] == 0xe0 {
            Some(Update::MotorSpeed { left_speed: v[1], right_speed: v[2] })
        } else {
            None
        }
    } else if uuid == MOTION {
        if v.len() >= 6 && v[0] == 0x01 {
            Some(
                Update::Motion {
                    horizontal: v[1],
                    collision: v[2],
                    double_tap: v[3],
                    posture: v[4],
                    shake: v[5],
                },
            )
        } else {
            None
        }
    } else if uuid == BATTERY {
        if v.len() >= 1 {
            Some(Update::Battery { level: v[0] })
        } else {
            None
        }
    } else if uuid == BUTTON {
        if v.len() >= 2 {
            Some(Update::Button { pressed: v[1] == 0x80 })
        } else {
            None
        }
    } else {
        None
    }
}

/// Decodes one notification. Returns exactly what `decode_spec` says; in
/// particular it returns `None` rather than failing on anything malformed.
pub fn decode_notification(uuid: u128, value: &Vec<u8>) -> (r: Option<Update>)
    ensures
        r == decode_spec(uuid, value@),
{
    if uuid == POSITION {
        if value.len() >= 11 && value[0] == 0x01 {
            Some(
                Update::Position {
                    x_center: value[1] as u16 + (value[2] as u16) * 256,
                    y_center: value[3] as u16 + (value[4] as u16) * 256,
                    theta: value[5] as u16 + (value[6] as u16) * 256,
                    x_sensor: value[7] as u16 + (value[8] as u16) * 256,
                    y_sensor: value[9] as u16 + (value[10] as u16) * 256,
                },
            )
        } else if value.len() >= 7 && value[0] == 0x02 {
            Some(
                Update::Standard {
                    standard: value[1] as u32 + (value[2] as u32) * 256 + (value[3] as u32) * 65536
                        + (value[4] as u32) * 16777216,
                    theta: value[5] as u16 + (value[6] as u16) * 256,
                },
            )
        } else if value.len() >= 1 && value[0] == 0x03 {
            Some(Update::PositionMissed)
        } else if value.len() >= 1 && value[0] == 0x04 {
            Some(Update::StandardMissed)
        } else {
            None
        }
    } else if uuid == MOTOR {
        if value.len() >= 3 && value[0] == 0x83 {
            Some(Update::MotorTargetResponse { control: value[1], response: value[2] })
        } else if value.len() >= 3 && value[0] == 0x84 {
            Some(Update::MultiTargetResponse { control: value[1], response: value[2] })
        } else if value.len() >= 3 && value[0] == 0xe0 {
            Some(Update::MotorSpeed { left_speed: value[1], right_speed: value[2] })
        } else {
            None
        }
    } else if uuid == MOTION {
        if value.len() >= 6 && value[0] == 0x01 {
            Some(
                Update::Motion {
                    horizontal: value[1],
                    collision: value[2],
                    double_tap: value[3],
                    posture: value[4],
                    shake: value[5],
                },
            )
        } else {
            None
        }
    } else if uuid == BATTERY {
        if value.len() >= 1 {
            Some(Update::Battery { level: value[0] })
        } else {
            None
        }
    } else if uuid == BUTTON {
        if value.len() >= 2 {
            Some(Update::Button { pressed: value[1] == 0x80 })
        } else {
            None
        }
    } else {
        None
    }
}

/// The display name of each characteristic; the empty string for one this
/// crate does not know.
pub open spec fn uuid_name(uuid: u128) -> Seq<char> {
    if uuid == SERVICE {
        "Service"@
    } else if uuid == POSITION {
        "Position"@
    } else if uuid == MOTOR {
        "Motor"@
    } else if uuid == LIGHT {
        "Light"@
    } else if uuid == SOUND {
        "Sound"@
    } else if uuid == MOTION {
        "Motion"@
    } else if uuid == BUTTON {
        "Button"@
    } else if uuid == BATTERY {
        "Battery"@
    } else if uuid == CONFIG {
        "Config"@
    } else {
        ""@
    }
}

/// Names the characteristic a 128-bit UUID stands for.
pub fn uuid_to_string(uuid: u128) -> (r: String)
    ensures
        r@ == uuid_name(uuid),
{
    if uuid == SERVICE {
        String::from_str("Service")
    } else if uuid == POSITION {
        String::from_str("Position")
    } else if uuid == MOTOR {
        String::from_str("Motor")
    } else if uuid == LIGHT {
        String::from_str("Light")
    } else if uuid == SOUND {
        String::from_str("Sound")
    } else if uuid == MOTION {
        String::from_str("Motion")
    } else if uuid == BUTTON {
        String::from_str("Button")
    } else if uuid == BATTERY {
        String::from_str("Battery")
    } else if uuid == CONFIG {
        String::from_str("Config")
    } else {
        String::from_str("")
    }
}

} // verus!
