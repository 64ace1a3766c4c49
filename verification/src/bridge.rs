//! The message-bus bridge: inbound bus datagrams become commands routed
//! by registry index, outbound updates become datagrams tagged with the
//! originating index.
//!
//! The datagrams are OSC messages; the OSC byte format itself is the
//! business of the `rosc` crate, reached through the two trusted wrappers
//! below. Everything around those calls — argument flattening, address
//! routing, field conversion — is verified here. Malformed or unroutable
//! inbound datagrams are silently dropped.

use vstd::prelude::*;
use crate::codec::{Command, CommandV, LedCommand, MidiCommand, TargetCommand};
use crate::ident::str_eq;
use crate::update::Update;

verus! {

/// What an inbound datagram decodes to: nothing unless it is a
/// well-formed OSC message, else its address and its arguments, each
/// argument as its value where it is an integer and nothing where it is
/// of any other OSC type.
pub uninterp spec fn osc_inbound(b: Seq<u8>) -> Option<(Seq<char>, Seq<Option<i32>>)>;

/// The OSC encoding of a message with the given address and integer
/// arguments, or nothing where the encoder refuses it.
pub uninterp spec fn osc_outbound(addr: Seq<char>, args: Seq<i32>) -> Option<Seq<u8>>;

/// Relies on rosc::decoder::decode_udp: what a datagram decodes to is a
/// function of its bytes alone. A datagram that is not a well-formed OSC
/// message (a bundle included) yields nothing; otherwise the message's
/// address comes back with its arguments, integer arguments by value and
/// every other argument type as `None`.
#[verifier::external_body]
fn osc_decode_inbound(buf: &[u8]) -> (r: Option<(String, Vec<Option<i32>>)>)
    ensures
        (match r {
            Some(p) => osc_inbound(buf@) == Some((p.0@, p.1@)),
            None => osc_inbound(buf@) is None,
        }),
{
    let to_int = |arg| if let rosc::OscType::Int(i) = arg { Some(i) } else { None };
    match rosc::decoder::decode_udp(buf) {
        Ok((_, rosc::OscPacket::Message(m))) => {
            Some((m.addr, m.args.into_iter().map(to_int).collect()))
        },
        _ => None,
    }
}

/// Relies on rosc::encoder::encode: the encoding of a message is a
/// function of its address and arguments alone.
#[verifier::external_body]
fn osc_encode_message(addr: &str, args: &Vec<i32>) -> (r: Option<Vec<u8>>)
    ensures
        (match r {
            Some(bytes) => osc_outbound(addr@, args@) == Some(bytes@),
            None => osc_outbound(addr@, args@) is None,
        }),
{
    let packet = rosc::OscPacket::Message(
        rosc::OscMessage {
            addr: addr.to_string(),
            args: args.iter().map(|v| rosc::OscType::Int(*v)).collect(),
        },
    );
    rosc::encoder::encode(&packet).ok()
}

/// The integer arguments of a message in order, the arguments of other
/// OSC types skipped.
pub open spec fn flatten_ints(args: Seq<Option<i32>>) -> Seq<i32>
    decreases args.len(),
{
    if args.len() == 0 {
        Seq::empty()
    } else {
        let rest = flatten_ints(args.drop_last());
        match args.last() {
            Some(v) => rest.push(v),
            None => rest,
        }
    }
}

/// Keeps the integer arguments, in order, and drops the rest.
pub fn flatten_args(args: &Vec<Option<i32>>) -> (r: Vec<i32>)
    ensures
        r@ == flatten_ints(args@),
{
    let mut r: Vec<i32> = Vec::new();
    let mut i: usize = 0;
    while i < args.len()
        invariant
            i <= args.len(),
            r@ == flatten_ints(args@.take(i as int)),
        decreases args.len() - i,
    {
        if let Some(v) = args[i] {
            r.push(v);
        }
        proof {
            assert(args@.take(i + 1).drop_last() =~= args@.take(i as int));
        }
        i += 1;
    }
    proof {
        assert(args@.take(args.len() as int) =~= args@);
    }
    r
}

/// A bus argument taken as a byte, as the wire casts do: the low eight
/// bits of the integer.
pub open spec fn byte_of_i32(v: i32) -> u8 {
    ((v as int) % 256) as u8
}

/// A bus argument taken as a 16-bit field: the low sixteen bits.
pub open spec fn word_of_i32(v: i32) -> u16 {
    ((v as int) % 65536) as u16
}

/// A 32-bit field reinterpreted as a signed bus argument.
pub open spec fn i32_of_u32(v: u32) -> i32 {
    if v <= 0x7FFF_FFFF {
        v as i32
    } else {
        ((v as int) - 0x1_0000_0000) as i32
    }
}

/// A registry index as a signed bus argument: its low 32 bits,
/// reinterpreted.
pub open spec fn i32_of_usize(v: usize) -> i32 {
    i32_of_u32(((v as int) % 0x1_0000_0000) as u32)
}

/// The low eight bits of a bus argument.
pub fn i32_byte(v: i32) -> (r: u8)
    ensures
        r == byte_of_i32(v),
{
    if v >= 0 {
        ((v as u32) % 256) as u8
    } else {
        let w: u32 = (-1 - v) as u32;
        (255 - (w % 256)) as u8
    }
}

/// The low sixteen bits of a bus argument.
pub fn i32_word(v: i32) -> (r: u16)
    ensures
        r == word_of_i32(v),
{
    if v >= 0 {
        ((v as u32) % 65536) as u16
    } else {
        let w: u32 = (-1 - v) as u32;
        (65535 - (w % 65536)) as u16
    }
}

/// A 32-bit field reinterpreted as a signed bus argument.
pub fn u32_signed(v: u32) -> (r: i32)
    ensures
        r == i32_of_u32(v),
{
    if v <= 0x7FFF_FFFF {
        v as i32
    } else {
        ((v as i64) - 0x1_0000_0000i64) as i32
    }
}

/// A registry index as a signed bus argument.
pub fn usize_signed(v: usize) -> (r: i32)
    ensures
        r == i32_of_usize(v),
{
    let low = ((v as u64) % 0x1_0000_0000u64) as u32;
    u32_signed(low)
}

/// The waypoints a `/multitarget` message carries after its six header
/// arguments: one waypoint per triple of integers.
pub open spec fn multi_targets(vals: Seq<i32>) -> Seq<TargetCommand> {
    Seq::new(
        ((vals.len() - 6) / 3) as nat,
        |k: int|
            TargetCommand {
                x_target: word_of_i32(vals[6 + 3 * k]),
                y_target: word_of_i32(vals[7 + 3 * k]),
                theta_target: word_of_i32(vals[8 + 3 * k]),
            },
    )
}

/// The light steps a `/multiLed` message carries after its two header
/// arguments: one step per quadruple of integers, in the order duration,
/// red, green, blue.
pub open spec fn multi_lights(vals: Seq<i32>) -> Seq<LedCommand> {
    Seq::new(
        ((vals.len() - 2) / 4) as nat,
        |k: int|
            LedCommand {
                duration: byte_of_i32(vals[2 + 4 * k]),
                red: byte_of_i32(vals[3 + 4 * k]),
                blue: byte_of_i32(vals[5 + 4 * k]),
                green: byte_of_i32(vals[4 + 4 * k]),
            },
    )
}

/// The notes a `/midi` message carries after its two header arguments:
/// one note per triple of integers.
pub open spec fn multi_notes(vals: Seq<i32>) -> Seq<MidiCommand> {
    Seq::new(
        ((vals.len() - 2) / 3) as nat,
        |k: int|
            MidiCommand {
                duration: byte_of_i32(vals[2 + 3 * k]),
                note: byte_of_i32(vals[3 + 3 * k]),
                volume: byte_of_i32(vals[4 + 3 * k]),
            },
    )
}

/// What an inbound message routes to. The first integer argument is the
/// target registry index; the rest build the command the address pattern
/// names. A message whose address is unknown, whose index argument is
/// missing or negative, whose arguments fall short, or whose entry list
/// is ragged routes to nothing.
pub open spec fn spec_route(addr: Seq<char>, vals: Seq<i32>) -> Option<(usize, CommandV)> {
    if vals.len() < 1 || vals[0] < 0 {
        None
    } else {
        let index = vals[0] as usize;
        if addr == "/motorbasic"@ {
            if vals.len() >= 5 {
                Some(
                    (
                        index,
                        CommandV::MotorControl {
                            left_direction: byte_of_i32(vals[1]),
                            left_speed: byte_of_i32(vals[2]),
                            right_direction: byte_of_i32(vals[3]),
                            right_speed: byte_of_i32(vals[4]),
                        },
                    ),
                )
            } else {
                None
            }
        } else if addr == "/motorduration"@ {
            if vals.len() >= 6 {
                Some(
                    (
                        index,
                        CommandV::MotorDuration {
                            left_direction: byte_of_i32(vals[1]),
                            left_speed: byte_of_i32(vals[2]),
                            right_direction: byte_of_i32(vals[3]),
                            right_speed: byte_of_i32(vals[4]),
                            duration: byte_of_i32(vals[5]),
                        },
                    ),
                )
            } else {
                None
            }
        } else if addr == "/motortarget"@ {
            if vals.len() >= 9 {
                Some(
                    (
                        index,
                        CommandV::MotorTarget {
                            control: byte_of_i32(vals[1]),
                            timeout: byte_of_i32(vals[2]),
                            move_type: byte_of_i32(vals[3]),
                            max_speed: byte_of_i32(vals[4]),
                            speed_change: byte_of_i32(vals[5]),
                            x_target: word_of_i32(vals[6]),
                            y_target: word_of_i32(vals[7]),
                            theta_target: word_of_i32(vals[8]),
                        },
                    ),
                )
            } else {
                None
            }
        } else if addr == "/motoracceleration"@ {
            if vals.len() >= 8 {
                Some(
                    (
                        index,
                        CommandV::MotorAcceleration {
                            velocity: byte_of_i32(vals[1]),
                            acceleration: byte_of_i32(vals[2]),
                            rotational_velocity: word_of_i32(vals[3]),
                            rotational_direction: byte_of_i32(vals[4]),
                            direction: byte_of_i32(vals[5]),
                            priority: byte_of_i32(vals[6]),
                            duration: byte_of_i32(vals[7]),
                        },
                    ),
                )
            } else {
                None
            }
        } else if addr == "/multitarget"@ {
            if vals.len() >= 6 && (vals.len() - 6) % 3 == 0 {
                Some(
                    (
                        index,
                        CommandV::MultiTarget {
                            control: byte_of_i32(vals[1]),
                            timeout: byte_of_i32(vals[2]),
                            move_type: byte_of_i32(vals[3]),
                            max_speed: byte_of_i32(vals[4]),
                            speed_change: byte_of_i32(vals[5]),
                            op_add: 1u8,
                            targets: multi_targets(vals),
                        },
                    ),
                )
            } else {
                None
            }
        } else if addr == "/led"@ {
            if vals.len() >= 5 {
                Some(
                    (
                        index,
                        CommandV::Led {
                            duration: byte_of_i32(vals[1]),
                            red: byte_of_i32(vals[2]),
                            green: byte_of_i32(vals[3]),
                            blue: byte_of_i32(vals[4]),
                        },
                    ),
                )
            } else {
                None
            }
        } else if addr == "/multiLed"@ {
            if vals.len() >= 2 && (vals.len() - 2) % 4 == 0 {
                Some(
                    (
                        index,
                        CommandV::MultiLed {
                            repetitions: byte_of_i32(vals[1]),
                            lights: multi_lights(vals),
                        },
                    ),
                )
            } else {
                None
            }
        } else if addr == "/sound"@ {
            if vals.len() >= 3 {
                Some(
                    (
                        index,
                        CommandV::Sound {
                            sound_effect: byte_of_i32(vals[1]),
                            volume: byte_of_i32(vals[2]),
                        },
                    ),
                )
            } else {
                None
            }
        } else if addr == "/midi"@ {
            if vals.len() >= 2 && (vals.len() - 2) % 3 == 0 {
                Some(
                    (
                        index,
                        CommandV::Midi { repetitions: byte_of_i32(vals[1]), notes: multi_notes(vals) },
                    ),
                )
            } else {
                None
            }
        } else {
            None
        }
    }
}

fn build_targets(vals: &Vec<i32>) -> (r: Vec<TargetCommand>)
    requires
        vals@.len() >= 6,
        (vals@.len() - 6) % 3 == 0,
    ensures
        r@ == multi_targets(vals@),
{
    let mut r: Vec<TargetCommand> = Vec::new();
    let mut k: usize = 6;
    while k < vals.len()
        invariant
            6 <= k <= vals@.len(),
            (k - 6) % 3 == 0,
            (vals@.len() - 6) % 3 == 0,
            r@.len() == (k - 6) / 3,
            forall|t: int|
                0 <= t < r@.len() ==> r@[t] == (TargetCommand {
                    x_target: word_of_i32(vals@[6 + 3 * t]),
                    y_target: word_of_i32(vals@[7 + 3 * t]),
                    theta_target: word_of_i32(vals@[8 + 3 * t]),
                }),
        decreases vals@.len() - k,
    {
        r.push(
            TargetCommand {
                x_target: i32_word(vals[k]),
                y_target: i32_word(vals[k + 1]),
                theta_target: i32_word(vals[k + 2]),
            },
        );
        k += 3;
    }
    proof {
        assert(r@ =~= multi_targets(vals@));
    }
    r
}

fn build_lights(vals: &Vec<i32>) -> (r: Vec<LedCommand>)
    requires
        vals@.len() >= 2,
        (vals@.len() - 2) % 4 == 0,
    ensures
        r@ == multi_lights(vals@),
{
    let mut r: Vec<LedCommand> = Vec::new();
    let mut k: usize = 2;
    while k < vals.len()
        invariant
            2 <= k <= vals@.len(),
            (k - 2) % 4 == 0,
            (vals@.len() - 2) % 4 == 0,
            r@.len() == (k - 2) / 4,
            forall|t: int|
                0 <= t < r@.len() ==> r@[t] == (LedCommand {
                    duration: byte_of_i32(vals@[2 + 4 * t]),
                    red: byte_of_i32(vals@[3 + 4 * t]),
                    blue: byte_of_i32(vals@[5 + 4 * t]),
                    green: byte_of_i32(vals@[4 + 4 * t]),
                }),
        decreases vals@.len() - k,
    {
        r.push(
            LedCommand {
                duration: i32_byte(vals[k]),
                red: i32_byte(vals[k + 1]),
                blue: i32_byte(vals[k + 3]),
                green: i32_byte(vals[k + 2]),
            },
        );
        k += 4;
    }
    proof {
        assert(r@ =~= multi_lights(vals@));
    }
    r
}

fn build_notes(vals: &Vec<i32>) -> (r: Vec<MidiCommand>)
    requires
        vals@.len() >= 2,
        (vals@.len() - 2) % 3 == 0,
    ensures
        r@ == multi_notes(vals@),
{
    let mut r: Vec<MidiCommand> = Vec::new();
    let mut k: usize = 2;
    while k < vals.len()
        invariant
            2 <= k <= vals@.len(),
            (k - 2) % 3 == 0,
            (vals@.len() - 2) % 3 == 0,
            r@.len() == (k - 2) / 3,
            forall|t: int|
                0 <= t < r@.len() ==> r@[t] == (MidiCommand {
                    duration: byte_of_i32(vals@[2 + 3 * t]),
                    note: byte_of_i32(vals@[3 + 3 * t]),
                    volume: byte_of_i32(vals@[4 + 3 * t]),
                }),
        decreases vals@.len() - k,
    {
        r.push(
            MidiCommand {
                duration: i32_byte(vals[k]),
                note: i32_byte(vals[k + 1]),
                volume: i32_byte(vals[k + 2]),
            },
        );
        k += 3;
    }
    proof {
        assert(r@ =~= multi_notes(vals@));
    }
    r
}

/// Routes one inbound message, already reduced to its address and its
/// integer arguments: picks the target index from the first argument and
/// builds the command the address names from the rest. Returns exactly
/// what `spec_route` says; anything malformed is dropped as `None`.
pub fn handle_packet(addr: &str, vals: &Vec<i32>) -> (r: Option<(usize, Command)>)
    ensures
        (match r {
            Some(p) => spec_route(addr@, vals@) == Some((p.0, p.1@)),
            None => spec_route(addr@, vals@) is None,
        }),
{
    if vals.len() < 1 {
        return None;
    }
    let first = vals[0];
    if first < 0 {
        return None;
    }
    let index = first as usize;
    if str_eq(addr, "/motorbasic") {
        if vals.len() >= 5 {
            Some(
                (
                    index,
                    Command::MotorControl {
                        left_direction: i32_byte(vals[1]),
                        left_speed: i32_byte(vals[2]),
                        right_direction: i32_byte(vals[3]),
                        right_speed: i32_byte(vals[4]),
                    },
                ),
            )
        } else {
            None
        }
    } else if str_eq(addr, "/motorduration") {
        if vals.len() >= 6 {
            Some(
                (
                    index,
                    Command::MotorDuration {
                        left_direction: i32_byte(vals[1]),
                        left_speed: i32_byte(vals[2]),
                        right_direction: i32_byte(vals[3]),
                        right_speed: i32_byte(vals[4]),
                        duration: i32_byte(vals[5]),
                    },
                ),
            )
        } else {
            None
        }
    } else if str_eq(addr, "/motortarget") {
        if vals.len() >= 9 {
            Some(
                (
                    index,
                    Command::MotorTarget {
                        control: i32_byte(vals[1]),
                        timeout: i32_byte(vals[2]),
                        move_type: i32_byte(vals[3]),
                        max_speed: i32_byte(vals[4]),
                        speed_change: i32_byte(vals[5]),
                        x_target: i32_word(vals[6]),
                        y_target: i32_word(vals[7]),
                        theta_target: i32_word(vals[8]),
                    },
                ),
            )
        } else {
            None
        }
    } else if str_eq(addr, "/motoracceleration") {
        if vals.len() >= 8 {
            Some(
                (
                    index,
                    Command::MotorAcceleration {
                        velocity: i32_byte(vals[1]),
                        acceleration: i32_byte(vals[2]),
                        rotational_velocity: i32_word(vals[3]),
                        rotational_direction: i32_byte(vals[4]),
                        direction: i32_byte(vals[5]),
                        priority: i32_byte(vals[6]),
                        duration: i32_byte(vals[7]),
                    },
                ),
            )
        } else {
            None
        }
    } else if str_eq(addr, "/multitarget") {
        if vals.len() >= 6 && (vals.len() - 6) % 3 == 0 {
            Some(
                (
                    index,
                    Command::MultiTarget {
                        control: i32_byte(vals[1]),
                        timeout: i32_byte(vals[2]),
                        move_type: i32_byte(vals[3]),
                        max_speed: i32_byte(vals[4]),
                        speed_change: i32_byte(vals[5]),
                        op_add: 1,
                        targets: build_targets(vals),
                    },
                ),
            )
        } else {
            None
        }
    } else if str_eq(addr, "/led") {
        if vals.len() >= 5 {
            Some(
                (
                    index,
                    Command::Led {
                        duration: i32_byte(vals[1]),
                        red: i32_byte(vals[2]),
                        green: i32_byte(vals[3]),
                        blue: i32_byte(vals[4]),
                    },
                ),
            )
        } else {
            None
        }
    } else if str_eq(addr, "/multiLed") {
        if vals.len() >= 2 && (vals.len() - 2) % 4 == 0 {
            Some(
                (
                    index,
                    Command::MultiLed { repetitions: i32_byte(vals[1]), lights: build_lights(vals) },
                ),
            )
        } else {
            None
        }
    } else if str_eq(addr, "/sound") {
        if vals.len() >= 3 {
            Some(
                (
                    index,
                    Command::Sound { sound_effect: i32_byte(vals[1]), volume: i32_byte(vals[2]) },
                ),
            )
        } else {
            None
        }
    } else if str_eq(addr, "/midi") {
        if vals.len() >= 2 && (vals.len() - 2) % 3 == 0 {
            Some(
                (index, Command::Midi { repetitions: i32_byte(vals[1]), notes: build_notes(vals) }),
            )
        } else {
            None
        }
    } else {
        None
    }
}

/// The address pattern an update is announced under.
pub open spec fn update_addr(u: Update) -> Seq<char> {
    match u {
        Update::Position { .. } => "/position"@,
        Update::Standard { .. } => "/standard"@,
        Update::PositionMissed => "/positionMissed"@,
        Update::StandardMissed => "/standardMissed"@,
        Update::MotorTargetResponse { .. } => "/motorresponse"@,
        Update::MultiTargetResponse { .. } => "/motorresponse"@,
        Update::MotorSpeed { .. } => "/motorSpeed"@,
        Update::Motion { .. } => "/motion"@,
        Update::PostureEuler { .. } => "/postureEuler"@,
        Update::Magnetic { .. } => "/magnetic"@,
        Update::Button { .. } => "/button"@,
        Update::Battery { .. } => "/battery"@,
    }
}

/// An update's fields flattened to integer arguments, in wire order. A
/// position report announces only its centre coordinates; a button
/// report announces `0x00` for pressed and `0x80` for released.
pub open spec fn update_fields(u: Update) -> Seq<i32> {
    match u {
        Update::Position { x_center, y_center, theta, .. } => {
            seq![x_center as i32, y_center as i32, theta as i32]
        },
        Update::Standard { standard, theta } => seq![i32_of_u32(standard), theta as i32],
        Update::PositionMissed => Seq::empty(),
        Update::StandardMissed => Seq::empty(),
        Update::MotorTargetResponse { control, response } => seq![control as i32, response as i32],
        Update::MultiTargetResponse { control, response } => seq![control as i32, response as i32],
        Update::MotorSpeed { left_speed, right_speed } => {
            seq![left_speed as i32, right_speed as i32]
        },
        Update::Motion { horizontal, collision, double_tap, posture, shake } => {
            seq![
                horizontal as i32,
                collision as i32,
                double_tap as i32,
                posture as i32,
                shake as i32,
            ]
        },
        Update::PostureEuler { roll, pitch, yaw } => seq![roll as i32, pitch as i32, yaw as i32],
        Update::Magnetic { state, strength, forcex, forcey, forcez } => {
            seq![state as i32, strength as i32, forcex as i32, forcey as i32, forcez as i32]
        },
        Update::Button { pressed } => seq![
            if pressed {
                0x00i32
            } else {
                0x80i32
            },
        ],
        Update::Battery { level } => seq![level as i32],
    }
}

/// The address and argument list an update is announced with.
pub fn update_args(update: &Update) -> (r: (String, Vec<i32>))
    ensures
        r.0@ == update_addr(*update),
        r.1@ == update_fields(*update),
{
    match update {
        Update::Position { x_center, y_center, theta, .. } => {
            (
                String::from_str("/position"),
                vec![*x_center as i32, *y_center as i32, *theta as i32],
            )
        },
        Update::Standard { standard, theta } => {
            (String::from_str("/standard"), vec![u32_signed(*standard), *theta as i32])
        },
        Update::PositionMissed => (String::from_str("/positionMissed"), Vec::new()),
        Update::StandardMissed => (String::from_str("/standardMissed"), Vec::new()),
        Update::MotorTargetResponse { control, response } => {
            (String::from_str("/motorresponse"), vec![*control as i32, *response as i32])
        },
        Update::MultiTargetResponse { control, response } => {
            (String::from_str("/motorresponse"), vec![*control as i32, *response as i32])
        },
        Update::MotorSpeed { left_speed, right_speed } => {
            (String::from_str("/motorSpeed"), vec![*left_speed as i32, *right_speed as i32])
        },
        Update::Motion { horizontal, collision, double_tap, posture, shake } => {
            (
                String::from_str("/motion"),
                vec![
                    *horizontal as i32,
                    *collision as i32,
                    *double_tap as i32,
                    *posture as i32,
                    *shake as i32,
                ],
            )
        },
        Update::PostureEuler { roll, pitch, yaw } => {
            (String::from_str("/postureEuler"), vec![*roll as i32, *pitch as i32, *yaw as i32])
        },
        Update::Magnetic { state, strength, forcex, forcey, forcez } => {
            (
                String::from_str("/magnetic"),
                vec![
                    *state as i32,
                    *strength as i32,
                    *forcex as i32,
                    *forcey as i32,
                    *forcez as i32,
                ],
            )
        },
        Update::Button { pressed } => {
            (
                String::from_str("/button"),
                vec![
                    if *pressed {
                        0x00i32
                    } else {
                        0x80i32
                    },
                ],
            )
        },
        Update::Battery { level } => (String::from_str("/battery"), vec![*level as i32]),
    }
}

/// The datagram that announces one update from the session at `index`:
/// the update's address pattern, then the index and the update's fields
/// as integer arguments, OSC-encoded.
pub fn outbound_packet(index: usize, update: &Update) -> (r: Option<Vec<u8>>)
    ensures
        (match r {
            Some(bytes) => osc_outbound(
                update_addr(*update),
                seq![i32_of_usize(index)] + update_fields(*update),
            ) == Some(bytes@),
            None => osc_outbound(
                update_addr(*update),
                seq![i32_of_usize(index)] + update_fields(*update),
            ) is None,
        }),
{
    let (addr, mut args) = update_args(update);
    args.insert(0, usize_signed(index));
    proof {
        assert(args@ =~= seq![i32_of_usize(index)] + update_fields(*update));
    }
    osc_encode_message(addr.as_str(), &args)
}

/// What one inbound datagram routes to: its OSC decoding, integer
/// arguments flattened, fed through the address routing.
pub open spec fn spec_inbound(b: Seq<u8>) -> Option<(usize, CommandV)> {
    match osc_inbound(b) {
        Some(p) => spec_route(p.0, flatten_ints(p.1)),
        None => None,
    }
}

/// Routes one inbound datagram to a target index and a command, or drops
/// it: not a well-formed OSC message, an unknown address, missing
/// arguments, a negative index and a ragged entry list are all dropped.
pub fn inbound_packet(buf: &[u8]) -> (r: Option<(usize, Command)>)
    ensures
        (match r {
            Some(p) => spec_inbound(buf@) == Some((p.0, p.1@)),
            None => spec_inbound(buf@) is None,
        }),
{
    match osc_decode_inbound(buf) {
        Some((addr, raw_args)) => {
            let vals = flatten_args(&raw_args);
            handle_packet(addr.as_str(), &vals)
        },
        None => None,
    }
}

} // verus!
