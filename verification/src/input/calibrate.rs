//! Stick calibration data.

use vstd::prelude::*;

verus! {

/// The four calibrated sticks.
#[derive(Debug, Clone, Copy, PartialEq, Eq, Structural)]
pub enum JoystickChannel {
    Thrust,
    Direction,
    Aileron,
    Elevator,
}

/// The position of a stick in the calibration table.
pub open spec fn joystick_slot(channel: JoystickChannel) -> int {
    match channel {
        JoystickChannel::Thrust => 0,
        JoystickChannel::Direction => 1,
        JoystickChannel::Aileron => 2,
        JoystickChannel::Elevator => 3,
    }
}

impl JoystickChannel {
    /// The position of this stick in the calibration table.
    pub fn slot(self) -> (res: usize)
        ensures
            res == joystick_slot(self),
    {
        match self {
            JoystickChannel::Thrust => 0,
            JoystickChannel::Direction => 1,
            JoystickChannel::Aileron => 2,
            JoystickChannel::Elevator => 3,
        }
    }
}

/// Calibration of one stick: which raw input channel it reads, the raw
/// range, and whether it is reversed.
#[derive(Debug, Clone, PartialEq, Eq)]
pub struct ChannelInfo {
    pub name: String,
    pub index: u8,
    pub min: i16,
    pub max: i16,
    pub rev: bool,
}

/// Calibration of all sticks, indexed by `JoystickChannel`.
#[derive(Debug, Clone, PartialEq, Eq)]
pub struct CalibrationData {
    pub channel_infos: Vec<ChannelInfo>,
    pub channel_indexs: Vec<u8>,
}

} // verus!
