//! Outbound command encoding: every command a cube understands, and the
//! exact byte sequence each one is written as.
//!
//! Multi-byte numeric fields travel little-endian (low byte first);
//! repeating variants carry their entries flattened in order.

use vstd::prelude::*;

verus! {

/// The cube's primary service identifier, as the 128 bits of its UUID.
pub const SERVICE: u128 = 0x10B20100_5B3B_4571_9508_CF3EFCD7BBAE;

/// Position (reader grid) characteristic.
pub const POSITION: u128 = 0x10B20101_5B3B_4571_9508_CF3EFCD7BBAE;

/// Motor characteristic.
pub const MOTOR: u128 = 0x10B20102_5B3B_4571_9508_CF3EFCD7BBAE;

/// Light characteristic.
pub const LIGHT: u128 = 0x10B20103_5B3B_4571_9508_CF3EFCD7BBAE;

/// Sound characteristic.
pub const SOUND: u128 = 0x10B20104_5B3B_4571_9508_CF3EFCD7BBAE;

/// Motion-sensor characteristic.
pub const MOTION: u128 = 0x10B20106_5B3B_4571_9508_CF3EFCD7BBAE;

/// Button characteristic.
pub const BUTTON: u128 = 0x10B20107_5B3B_4571_9508_CF3EFCD7BBAE;

/// Battery characteristic.
pub const BATTERY: u128 = 0x10B20108_5B3B_4571_9508_CF3EFCD7BBAE;

/// Configuration characteristic.
pub const CONFIG: u128 = 0x10B201FF_5B3B_4571_9508_CF3EFCD7BBAE;

/// How a command write is issued: light and sound commands wait for the
/// transport to confirm delivery; motion and motor commands do not, trading
/// reliability for latency.
#[derive(Clone, Copy, Debug, PartialEq, Eq, Structural)]
pub enum WriteMode {
    WithResponse,
    WithoutResponse,
}

/// One waypoint of a multi-target motor command. A vector of these is a
/// series of positions for a cube to travel through in order.
#[derive(Clone, Copy, Debug, PartialEq, Eq, Structural)]
pub struct TargetCommand {
    pub x_target: u16,
    pub y_target: u16,
    pub theta_target: u16,
}

/// One step of a repeating light sequence: a colour shown for `duration`.
#[derive(Clone, Copy, Debug, PartialEq, Eq, Structural)]
pub struct LedCommand {
    pub duration: u8,
    pub red: u8,
    pub blue: u8,
    pub green: u8,
}

/// One note of a repeating MIDI sequence.
#[derive(Clone, Copy, Debug, PartialEq, Eq, Structural)]
pub struct MidiCommand {
    pub duration: u8,
    pub note: u8,
    pub volume: u8,
}

/// Low byte of a little-endian 16-bit field.
pub open spec fn lo16(x: u16) -> u8 {
    (x % 256) as u8
}

/// High byte of a little-endian 16-bit field.
pub open spec fn hi16(x: u16) -> u8 {
    (x / 256) as u8
}

/// The six bytes one waypoint flattens to: x, y, theta, each low byte first.
pub open spec fn target_entry_bytes(t: TargetCommand) -> Seq<u8> {
    seq![
        lo16(t.x_target),
        hi16(t.x_target),
        lo16(t.y_target),
        hi16(t.y_target),
        lo16(t.theta_target),
        hi16(t.theta_target),
    ]
}

/// A waypoint list flattens to its entries' bytes in order, with no header:
/// the enclosing multi-target command carries the header itself.
pub open spec fn target_list_bytes(ts: Seq<TargetCommand>) -> Seq<u8>
    decreases ts.len(),
{
    if ts.len() == 0 {
        Seq::empty()
    } else {
        target_list_bytes(ts.drop_last()) + target_entry_bytes(ts.last())
    }
}

/// Every command a cube accepts, each variant carrying exactly the fields
/// its wire encoding needs.
#[derive(Clone, Debug)]
pub enum Command {
    // Request commands
    MotionRequest,
    MagneticRequest,
    PostureRequest { format: u8 },
    // Motor commands
    MotorControl { left_direction: u8, left_speed: u8, right_direction: u8, right_speed: u8 },
    MotorDuration {
        left_direction: u8,
        left_speed: u8,
        right_direction: u8,
        right_speed: u8,
        duration: u8,
    },
    MotorTarget {
        control: u8,
        timeout: u8,
        move_type: u8,
        max_speed: u8,
        speed_change: u8,
        x_target: u16,
        y_target: u16,
        theta_target: u16,
    },
    MultiTarget {
        control: u8,
        timeout: u8,
        move_type: u8,
        max_speed: u8,
        speed_change: u8,
        op_add: u8,
        targets: Vec<TargetCommand>,
    },
    MotorAcceleration {
        velocity: u8,
        acceleration: u8,
        rotational_velocity: u16,
        rotational_direction: u8,
        direction: u8,
        priority: u8,
        duration: u8,
    },
    // Light commands
    LedOff,
    Led { duration: u8, red: u8, green: u8, blue: u8 },
    MultiLed { repetitions: u8, lights: Vec<LedCommand> },
    // Sound commands
    SoundOff,
    Sound { sound_effect: u8, volume: u8 },
    Midi { repetitions: u8, notes: Vec<MidiCommand> },
}

/// Mathematical image of a `Command`: the same variants with the entry
/// vectors abstracted to sequences. Contracts elsewhere speak of this type.
pub enum CommandV {
    MotionRequest,
    MagneticRequest,
    PostureRequest { format: u8 },
    MotorControl { left_direction: u8, left_speed: u8, right_direction: u8, right_speed: u8 },
    MotorDuration {
        left_direction: u8,
        left_speed: u8,
        right_direction: u8,
        right_speed: u8,
        duration: u8,
    },
    MotorTarget {
        control: u8,
        timeout: u8,
        move_type: u8,
        max_speed: u8,
        speed_change: u8,
        x_target: u16,
        y_target: u16,
        theta_target: u16,
    },
    MultiTarget {
        control: u8,
        timeout: u8,
        move_type: u8,
        max_speed: u8,
        speed_change: u8,
        op_add: u8,
        targets: Seq<TargetCommand>,
    },
    MotorAcceleration {
        velocity: u8,
        acceleration: u8,
        rotational_velocity: u16,
        rotational_direction: u8,
        direction: u8,
        priority: u8,
        duration: u8,
    },
    LedOff,
    Led { duration: u8, red: u8, green: u8, blue: u8 },
    MultiLed { repetitions: u8, lights: Seq<LedCommand> },
    SoundOff,
    Sound { sound_effect: u8, volume: u8 },
    Midi { repetitions: u8, notes: Seq<MidiCommand> },
}

impl View for Command {
    type V = CommandV;

    open spec fn view(&self) -> CommandV {
        match self {
            Command::MotionRequest => CommandV::MotionRequest,
            Command::MagneticRequest => CommandV::MagneticRequest,
            Command::PostureRequest { format } => CommandV::PostureRequest { format: *format },
            Command::MotorControl { left_direction, left_speed, right_direction, right_speed } => {
                CommandV::MotorControl {
                    left_direction: *left_direction,
                    left_speed: *left_speed,
                    right_direction: *right_direction,
                    right_speed: *right_speed,
                }
            },
            Command::MotorDuration {
                left_direction,
                left_speed,
                right_direction,
                right_speed,
                duration,
            } => {
                CommandV::MotorDuration {
                    left_direction: *left_direction,
                    left_speed: *left_speed,
                    right_direction: *right_direction,
                    right_speed: *right_speed,
                    duration: *duration,
                }
            },
            Command::MotorTarget {
                control,
                timeout,
                move_type,
                max_speed,
                speed_change,
                x_target,
                y_target,
                theta_target,
            } => {
                CommandV::MotorTarget {
                    control: *control,
                    timeout: *timeout,
                    move_type: *move_type,
                    max_speed: *max_speed,
                    speed_change: *speed_change,
                    x_target: *x_target,
                    y_target: *y_target,
                    theta_target: *theta_target,
                }
            },
            Command::MultiTarget {
                control,
                timeout,
                move_type,
                max_speed,
                speed_change,
                op_add,
                targets,
            } => {
                CommandV::MultiTarget {
                    control: *control,
                    timeout: *timeout,
                    move_type: *move_type,
                    max_speed: *max_speed,
                    speed_change: *speed_change,
                    op_add: *op_add,
                    targets: targets@,
                }
            },
            Command::MotorAcceleration {
                velocity,
                acceleration,
                rotational_velocity,
                rotational_direction,
                direction,
                priority,
                duration,
            } => {
                CommandV::MotorAcceleration {
                    velocity: *velocity,
                    acceleration: *acceleration,
                    rotational_velocity: *rotational_velocity,
                    rotational_direction: *rotational_direction,
                    direction: *direction,
                    priority: *priority,
                    duration: *duration,
                }
            },
            Command::LedOff => CommandV::LedOff,
            Command::Led { duration, red, green, blue } => {
                CommandV::Led { duration: *duration, red: *red, green: *green, blue: *blue }
            },
            Command::MultiLed { repetitions, lights } => {
                CommandV::MultiLed { repetitions: *repetitions, lights: lights@ }
            },
            Command::SoundOff => CommandV::SoundOff,
            Command::Sound { sound_effect, volume } => {
                CommandV::Sound { sound_effect: *sound_effect, volume: *volume }
            },
            Command::Midi { repetitions, notes } => {
                CommandV::Midi { repetitions: *repetitions, notes: notes@ }
            },
        }
    }
}

/// Entry-count byte of a repeating sequence: the low byte of the length.
pub open spec fn count_byte(n: nat) -> u8 {
    (n % 256) as u8
}

/// The six bytes one light step flattens to. The two fixed `0x01` bytes
/// select the cube's single light unit.
pub open spec fn led_entry_bytes(l: LedCommand) -> Seq<u8> {
    seq![l.duration, 0x01u8, 0x01u8, l.red, l.green, l.blue]
}

pub open spec fn led_list_bytes(ls: Seq<LedCommand>) -> Seq<u8>
    decreases ls.len(),
{
    if ls.len() == 0 {
        Seq::empty()
    } else {
        led_list_bytes(ls.drop_last()) + led_entry_bytes(ls.last())
    }
}

/// A repeating light command: type tag, repeat count, entry count, entries.
pub open spec fn led_command_bytes(repetitions: u8, ls: Seq<LedCommand>) -> Seq<u8> {
    seq![0x04u8, repetitions, count_byte(ls.len())] + led_list_bytes(ls)
}

/// The three bytes one note flattens to.
pub open spec fn midi_entry_bytes(n: MidiCommand) -> Seq<u8> {
    seq![n.duration, n.note, n.volume]
}

pub open spec fn midi_list_bytes(ns: Seq<MidiCommand>) -> Seq<u8>
    decreases ns.len(),
{
    if ns.len() == 0 {
        Seq::empty()
    } else {
        midi_list_bytes(ns.drop_last()) + midi_entry_bytes(ns.last())
    }
}

/// A repeating MIDI command: type tag, repeat count, entry count, entries.
pub open spec fn midi_command_bytes(repetitions: u8, ns: Seq<MidiCommand>) -> Seq<u8> {
    seq![0x03u8, repetitions, count_byte(ns.len())] + midi_list_bytes(ns)
}

/// Flattens a waypoint list to its wire bytes.
pub fn parse_target_command(vals: Vec<TargetCommand>) -> (cmd: Vec<u8>)
    ensures
        cmd@ == target_list_bytes(vals@),
{
    let mut cmd: Vec<u8> = Vec::new();
    let mut i: usize = 0;
    while i < vals.len()
        invariant
            i <= vals.len(),
            cmd@ == target_list_bytes(vals@.take(i as int)),
        decreases vals.len() - i,
    {
        let t = vals[i];
        cmd.push((t.x_target % 256) as u8);
        cmd.push((t.x_target / 256) as u8);
        cmd.push((t.y_target % 256) as u8);
        cmd.push((t.y_target / 256) as u8);
        cmd.push((t.theta_target % 256) as u8);
        cmd.push((t.theta_target / 256) as u8);
        proof {
            assert(vals@.take(i + 1).drop_last() =~= vals@.take(i as int));
            assert(cmd@ =~= target_list_bytes(vals@.take(i + 1)));
        }
        i += 1;
    }
    proof {
        assert(vals@.take(vals.len() as int) =~= vals@);
    }
    cmd
}

/// Flattens a waypoint list to its wire bytes. Older spelling of
/// `parse_target_command`, kept so existing callers keep working.
#[allow(non_snake_case)]
pub fn parseTargetCommand(vals: Vec<TargetCommand>) -> (cmd: Vec<u8>)
    ensures
        cmd@ == target_list_bytes(vals@),
{
    parse_target_command(vals)
}

/// Builds the byte sequence of a repeating light command.
pub fn parse_led_command(repetitions: u8, vals: Vec<LedCommand>) -> (cmd: Vec<u8>)
    ensures
        cmd@ == led_command_bytes(repetitions, vals@),
{
    let mut cmd: Vec<u8> = Vec::new();
    cmd.push(0x04);
    cmd.push(repetitions);
    cmd.push((vals.len() % 256) as u8);
    let mut i: usize = 0;
    while i < vals.len()
        invariant
            i <= vals.len(),
            cmd@ == seq![0x04u8, repetitions, count_byte(vals@.len())] + led_list_bytes(
                vals@.take(i as int),
            ),
        decreases vals.len() - i,
    {
        let l = vals[i];
        cmd.push(l.duration);
        cmd.push(0x01);
        cmd.push(0x01);
        cmd.push(l.red);
        cmd.push(l.green);
        cmd.push(l.blue);
        proof {
            assert(vals@.take(i + 1).drop_last() =~= vals@.take(i as int));
            assert(cmd@ =~= seq![0x04u8, repetitions, count_byte(vals@.len())] + led_list_bytes(
                vals@.take(i + 1),
            ));
        }
        i += 1;
    }
    proof {
        assert(vals@.take(vals.len() as int) =~= vals@);
    }
    cmd
}

/// Builds the byte sequence of a repeating light command. Older spelling of
/// `parse_led_command`, kept so existing callers keep working.
#[allow(non_snake_case)]
pub fn parseLedCommand(repetitions: u8, vals: Vec<LedCommand>) -> (cmd: Vec<u8>)
    ensures
        cmd@ == led_command_bytes(repetitions, vals@),
{
    parse_led_command(repetitions, vals)
}

/// Builds the byte sequence of a repeating MIDI command.
pub fn parse_midi_command(repetitions: u8, vals: Vec<MidiCommand>) -> (cmd: Vec<u8>)
    ensures
        cmd@ == midi_command_bytes(repetitions, vals@),
{
    let mut cmd: Vec<u8> = Vec::new();
    cmd.push(0x03);
    cmd.push(repetitions);
    cmd.push((vals.len() % 256) as u8);
    let mut i: usize = 0;
    while i < vals.len()
        invariant
            i <= vals.len(),
            cmd@ == seq![0x03u8, repetitions, count_byte(vals@.len())] + midi_list_bytes(
                vals@.take(i as int),
            ),
        decreases vals.len() - i,
    {
        let n = vals[i];
        cmd.push(n.duration);
        cmd.push(n.note);
        cmd.push(n.volume);
        proof {
            assert(vals@.take(i + 1).drop_last() =~= vals@.take(i as int));
            assert(cmd@ =~= seq![0x03u8, repetitions, count_byte(vals@.len())] + midi_list_bytes(
                vals@.take(i + 1),
            ));
        }
        i += 1;
    }
    proof {
        assert(vals@.take(vals.len() as int) =~= vals@);
    }
    cmd
}

/// Builds the byte sequence of a repeating MIDI command. Older spelling of
/// `parse_midi_command`, kept so existing callers keep working.
#[allow(non_snake_case)]
pub fn parseMidiCommand(repetitions: u8, vals: Vec<MidiCommand>) -> (cmd: Vec<u8>)
    ensures
        cmd@ == midi_command_bytes(repetitions, vals@),
{
    parse_midi_command(repetitions, vals)
}

/// The characteristic a command is written to, by family.
pub open spec fn command_uuid(c: CommandV) -> u128 {
    match c {
        CommandV::MotionRequest | CommandV::MagneticRequest | CommandV::PostureRequest {
            ..
        } => MOTION,
        CommandV::MotorControl { .. } | CommandV::MotorDuration { .. } | CommandV::MotorTarget {
            ..
        } | CommandV::MultiTarget { .. } | CommandV::MotorAcceleration { .. } => MOTOR,
        CommandV::LedOff | CommandV::Led { .. } | CommandV::MultiLed { .. } => LIGHT,
        CommandV::SoundOff | CommandV::Sound { .. } | CommandV::Midi { .. } => SOUND,
    }
}

/// Writes to the light and sound characteristics are acknowledged; all
/// others are fire-and-forget.
pub open spec fn write_mode_of(uuid: u128) -> WriteMode {
    if uuid == LIGHT || uuid == SOUND {
        WriteMode::WithResponse
    } else {
        WriteMode::WithoutResponse
    }
}

/// The exact byte sequence each command is written as.
pub open spec fn command_bytes(c: CommandV) -> Seq<u8> {
    match c {
        CommandV::MotionRequest => seq![0x81u8],
        CommandV::MagneticRequest => seq![0x82u8],
        CommandV::PostureRequest { format } => seq![0x83u8, format],
        CommandV::MotorControl { left_direction, left_speed, right_direction, right_speed } => {
            seq![0x01u8, 0x01u8, left_direction, left_speed, 0x02u8, right_direction, right_speed]
        },
        CommandV::MotorDuration {
            left_direction,
            left_speed,
            right_direction,
            right_speed,
            duration,
        } => {
            seq![
                0x02u8,
                0x01u8,
                left_direction,
                left_speed,
                0x02u8,
                right_direction,
                right_speed,
                duration,
            ]
        },
        CommandV::MotorTarget {
            control,
            timeout,
            move_type,
            max_speed,
            speed_change,
            x_target,
            y_target,
            theta_target,
        } => {
            seq![
                0x03u8,
                control,
                timeout,
                move_type,
                max_speed,
                speed_change,
                0x00u8,
                lo16(x_target),
                hi16(x_target),
                lo16(y_target),
                hi16(y_target),
                lo16(theta_target),
                hi16(theta_target),
            ]
        },
        CommandV::MultiTarget {
            control,
            timeout,
            move_type,
            max_speed,
            speed_change,
            op_add,
            targets,
        } => {
            seq![0x04u8, control, timeout, move_type, max_speed, speed_change, 0x00u8, op_add]
                + target_list_bytes(targets)
        },
        CommandV::MotorAcceleration {
            velocity,
            acceleration,
            rotational_velocity,
            rotational_direction,
            direction,
            priority,
            duration,
        } => {
            seq![
                0x05u8,
                velocity,
                acceleration,
                lo16(rotational_velocity),
                hi16(rotational_velocity),
                rotational_direction,
                direction,
                priority,
                duration,
            ]
        },
        CommandV::LedOff => seq![0x01u8],
        CommandV::Led { duration, red, green, blue } => {
            seq![0x03u8, duration, 0x01u8, 0x01u8, red, green, blue]
        },
        CommandV::MultiLed { repetitions, lights } => led_command_bytes(repetitions, lights),
        CommandV::SoundOff => seq![0x01u8],
        CommandV::Sound { sound_effect, volume } => seq![0x02u8, sound_effect, volume],
        CommandV::Midi { repetitions, notes } => midi_command_bytes(repetitions, notes),
    }
}

/// Encodes a command: the characteristic it is written to, its exact wire
/// bytes, and whether the write waits for acknowledgement.
pub fn encode_command(command: Command) -> (r: (u128, Vec<u8>, WriteMode))
    ensures
        r.0 == command_uuid(command@),
        r.1@ == command_bytes(command@),
        r.2 == write_mode_of(command_uuid(command@)),
{
    let uuid: u128 = match &command {
        Command::MotionRequest | Command::MagneticRequest | Command::PostureRequest { .. } => {
            MOTION
        },
        Command::MotorControl { .. } | Command::MotorDuration { .. } | Command::MotorTarget {
            ..
        } | Command::MultiTarget { .. } | Command::MotorAcceleration { .. } => MOTOR,
        Command::LedOff | Command::Led { .. } | Command::MultiLed { .. } => LIGHT,
        Command::SoundOff | Command::Sound { .. } | Command::Midi { .. } => SOUND,
    };
    let mode = if uuid == LIGHT || uuid == SOUND {
        WriteMode::WithResponse
    } else {
        WriteMode::WithoutResponse
    };
    let bytes: Vec<u8> = match command {
        Command::MotionRequest => vec![0x81],
        Command::MagneticRequest => vec![0x82],
        Command::PostureRequest { format } => vec![0x83, format],
        Command::MotorControl { left_direction, left_speed, right_direction, right_speed } => {
            vec![0x01, 0x01, left_direction, left_speed, 0x02, right_direction, right_speed]
        },
        Command::MotorDuration {
            left_direction,
            left_speed,
            right_direction,
            right_speed,
            duration,
        } => {
            vec![
                0x02,
                0x01,
                left_direction,
                left_speed,
                0x02,
                right_direction,
                right_speed,
                duration,
            ]
        },
        Command::MotorTarget {
            control,
            timeout,
            move_type,
            max_speed,
            speed_change,
            x_target,
            y_target,
            theta_target,
        } => {
            vec![
                0x03,
                control,
                timeout,
                move_type,
                max_speed,
                speed_change,
                0x00,
                (x_target % 256) as u8,
                (x_target / 256) as u8,
                (y_target % 256) as u8,
                (y_target / 256) as u8,
                (theta_target % 256) as u8,
                (theta_target / 256) as u8,
            ]
        },
        Command::MultiTarget {
            control,
            timeout,
            move_type,
            max_speed,
            speed_change,
            op_add,
            targets,
        } => {
            let mut cmd = vec![
                0x04,
                control,
                timeout,
                move_type,
                max_speed,
                speed_change,
                0x00,
                op_add,
            ];
            let mut tail = parse_target_command(targets);
            cmd.append(&mut tail);
            cmd
        },
        Command::MotorAcceleration {
            velocity,
            acceleration,
            rotational_velocity,
            rotational_direction,
            direction,
            priority,
            duration,
        } => {
            vec![
                0x05,
                velocity,
                acceleration,
                (rotational_velocity % 256) as u8,
                (rotational_velocity / 256) as u8,
                rotational_direction,
                direction,
                priority,
                duration,
            ]
        },
        Command::LedOff => vec![0x01],
        Command::Led { duration, red, green, blue } => {
            vec![0x03, duration, 0x01, 0x01, red, green, blue]
        },
        Command::MultiLed { repetitions, lights } => parse_led_command(repetitions, lights),
        Command::SoundOff => vec![0x01],
        Command::Sound { sound_effect, volume } => vec![0x02, sound_effect, volume],
        Command::Midi { repetitions, notes } => parse_midi_command(repetitions, notes),
    };
    (uuid, bytes, mode)
}

} // verus!
