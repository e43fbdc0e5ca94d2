//! Haptic commands on the point-to-point bus, and the motor loop's rules.
//!
//! The controller writes nine-byte commands to the cuff: a code byte naming
//! a motor (or the indicator), then a 64-bit little-endian duration or
//! level. Each motor runs for the signalled duration and re-arms whenever a
//! new duration arrives before the old one lapses.

use vstd::prelude::*;

use vstd::bytes::spec_u64_from_le_bytes;
use vstd::bytes::spec_u64_to_le_bytes;
use vstd::bytes::u64_from_le_bytes;
use vstd::bytes::u64_to_le_bytes;

verus! {

/// Bus address of the cuff peripheral.
pub const CUFF_BUS_ADDRESS: u16 = 0x45;

/// Length of a bus command.
pub const COMMAND_LEN: usize = 9;

/// Code byte of the "run front motor" command.
pub const FRONT_MOTOR_CODE: u8 = 0x10;

/// Code byte of the "run back motor" command.
pub const BACK_MOTOR_CODE: u8 = 0x11;

/// Code byte of the "run left motor" command.
pub const LEFT_MOTOR_CODE: u8 = 0x12;

/// Code byte of the "run right motor" command.
pub const RIGHT_MOTOR_CODE: u8 = 0x13;

/// Code byte of the "set indicator level" command.
pub const INDICATOR_CODE: u8 = 0x09;

/// The motor a command addresses.
#[derive(Clone, Copy, PartialEq, Eq, Structural, Debug)]
pub enum MotorChannel {
    Front,
    Back,
    Left,
    Right,
}

/// The motor a code byte names, if any.
pub open spec fn channel_of_code(code: u8) -> Option<MotorChannel> {
    if code == FRONT_MOTOR_CODE {
        Some(MotorChannel::Front)
    } else if code == BACK_MOTOR_CODE {
        Some(MotorChannel::Back)
    } else if code == LEFT_MOTOR_CODE {
        Some(MotorChannel::Left)
    } else if code == RIGHT_MOTOR_CODE {
        Some(MotorChannel::Right)
    } else {
        None
    }
}

/// The motor a code byte names, if any.
pub fn motor_channel(code: u8) -> (channel: Option<MotorChannel>)
    ensures
        channel == channel_of_code(code),
{
    if code == FRONT_MOTOR_CODE {
        Some(MotorChannel::Front)
    } else if code == BACK_MOTOR_CODE {
        Some(MotorChannel::Back)
    } else if code == LEFT_MOTOR_CODE {
        Some(MotorChannel::Left)
    } else if code == RIGHT_MOTOR_CODE {
        Some(MotorChannel::Right)
    } else {
        None
    }
}

/// Parses a motor command out of the `len` bytes written on the bus: the
/// command must carry its full duration and its code byte must name a
/// motor. Short writes and other codes are ignored.
pub fn parse_motor_command(data: &Vec<u8>, len: usize) -> (command: Option<(MotorChannel, u64)>)
    requires
        len <= data@.len(),
    ensures
        command is Some <==> len >= COMMAND_LEN && channel_of_code(data@[0]) is Some,
        command matches Some((channel, duration)) ==> Some(channel) == channel_of_code(data@[0])
            && duration == spec_u64_from_le_bytes(data@.subrange(1, 9)),
{
    if len < COMMAND_LEN {
        return None;
    }
    match motor_channel(data[0]) {
        Some(channel) => {
            let mut le: Vec<u8> = Vec::new();
            let mut i: usize = 1;
            while i < 9
                invariant
                    data@.len() >= 9,
                    1 <= i <= 9,
                    le@.len() == i - 1,
                    forall|j: int| 0 <= j < i - 1 ==> le@[j] == data@[1 + j],
                decreases 9 - i,
            {
                le.push(data[i]);
                i = i + 1;
            }
            proof {
                assert(le@ =~= data@.subrange(1, 9));
            }
            let duration = u64_from_le_bytes(le.as_slice());
            Some((channel, duration))
        },
        None => None,
    }
}

/// Builds the nine-byte "set indicator level" command the controller
/// writes after each battery reading.
pub fn build_indicator_command(level: u64) -> (command: Vec<u8>)
    ensures
        command@.len() == COMMAND_LEN,
        command@[0] == INDICATOR_CODE,
        command@.subrange(1, 9) == spec_u64_to_le_bytes(level),
{
    let mut command: Vec<u8> = Vec::new();
    command.push(INDICATOR_CODE);
    let le = u64_to_le_bytes(level);
    let mut i: usize = 0;
    while i < 8
        invariant
            le@ == spec_u64_to_le_bytes(level),
            le@.len() == 8,
            i <= 8,
            command@.len() == 1 + i,
            command@[0] == INDICATOR_CODE,
            forall|j: int| 0 <= j < i ==> command@[1 + j] == le@[j],
        decreases 8 - i,
    {
        command.push(le[i]);
        i = i + 1;
    }
    proof {
        assert(command@.subrange(1, 9) =~= spec_u64_to_le_bytes(level));
    }
    command
}

/// Run state of one motor.
#[derive(Clone, Copy, PartialEq, Eq, Structural, Debug)]
pub enum MotorState {
    Off,
    Running(u64),
}

/// What wakes a motor loop: a newly signalled duration, or the off timer.
#[derive(Clone, Copy, PartialEq, Eq, Structural, Debug)]
pub enum MotorEvent {
    Duration(u64),
    TimerLapsed,
}

/// What the motor loop does in response.
#[derive(Clone, Copy, PartialEq, Eq, Structural, Debug)]
pub enum MotorAction {
    PowerOn(u64),
    PowerOff,
}

/// The decision a motor loop takes on one event. A new duration turns the
/// motor on, or keeps it on, and arms the off timer afresh; a lapsed timer
/// turns the motor off. No timer is armed while the motor is off, so a
/// lapse cannot be observed then.
pub fn motor_step(state: MotorState, event: MotorEvent) -> (r: (MotorState, MotorAction))
    requires
        !(state is Off && event is TimerLapsed),
    ensures
        event matches MotorEvent::Duration(d) ==> r == (
            MotorState::Running(d),
            MotorAction::PowerOn(d),
        ),
        event is TimerLapsed ==> r == (MotorState::Off, MotorAction::PowerOff),
{
    match event {
        MotorEvent::Duration(d) => (MotorState::Running(d), MotorAction::PowerOn(d)),
        MotorEvent::TimerLapsed => (MotorState::Off, MotorAction::PowerOff),
    }
}

} // verus!
