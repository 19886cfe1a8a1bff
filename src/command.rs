//! The command bytes of the PS/2 controller and of its devices.

use vstd::prelude::*;

verus! {

/// Keyboard command that selects or reports the scan set; whether it replies depends on its data.
pub const SET_GET_SCANCODE: u8 = 0xF0;

/// A PS/2 controller command without a reply.
#[derive(PartialEq, Eq, Structural, Clone, Copy, Debug)]
pub enum ControllerCommand {
    DisablePort2,
    EnablePort2,
    DisablePort1,
    EnablePort1,
    WriteInputPort2,
}

impl ControllerCommand {
    pub open spec fn spec_byte(self) -> u8 {
        match self {
            ControllerCommand::DisablePort2 => 0xA7,
            ControllerCommand::EnablePort2 => 0xA8,
            ControllerCommand::DisablePort1 => 0xAD,
            ControllerCommand::EnablePort1 => 0xAE,
            ControllerCommand::WriteInputPort2 => 0xD4,
        }
    }

    /// The byte sent on the wire for this command.
    pub fn byte(self) -> (r: u8)
        ensures
            r == self.spec_byte(),
    {
        match self {
            ControllerCommand::DisablePort2 => 0xA7,
            ControllerCommand::EnablePort2 => 0xA8,
            ControllerCommand::DisablePort1 => 0xAD,
            ControllerCommand::EnablePort1 => 0xAE,
            ControllerCommand::WriteInputPort2 => 0xD4,
        }
    }
}

/// A PS/2 controller command with a one-byte reply.
#[derive(PartialEq, Eq, Structural, Clone, Copy, Debug)]
pub enum ControllerReturnCommand {
    ReadConfig,
    TestController,
    TestPort1,
    TestPort2,
    IdentifyDevice,
}

impl ControllerReturnCommand {
    pub open spec fn spec_byte(self) -> u8 {
        match self {
            ControllerReturnCommand::ReadConfig => 0x20,
            ControllerReturnCommand::TestController => 0xAA,
            ControllerReturnCommand::TestPort1 => 0xAB,
            ControllerReturnCommand::TestPort2 => 0xA9,
            ControllerReturnCommand::IdentifyDevice => 0xF2,
        }
    }

    /// The byte sent on the wire for this command.
    pub fn byte(self) -> (r: u8)
        ensures
            r == self.spec_byte(),
    {
        match self {
            ControllerReturnCommand::ReadConfig => 0x20,
            ControllerReturnCommand::TestController => 0xAA,
            ControllerReturnCommand::TestPort1 => 0xAB,
            ControllerReturnCommand::TestPort2 => 0xA9,
            ControllerReturnCommand::IdentifyDevice => 0xF2,
        }
    }
}

/// A PS/2 controller command followed by a data byte.
#[derive(PartialEq, Eq, Structural, Clone, Copy, Debug)]
pub enum ControllerDataCommand {
    WriteConfig,
}

impl ControllerDataCommand {
    pub open spec fn spec_byte(self) -> u8 {
        match self {
            ControllerDataCommand::WriteConfig => 0x60,
        }
    }

    /// The byte sent on the wire for this command.
    pub fn byte(self) -> (r: u8)
        ensures
            r == self.spec_byte(),
    {
        match self {
            ControllerDataCommand::WriteConfig => 0x60,
        }
    }
}

/// A device command without a reply and without data.
#[derive(PartialEq, Eq, Structural, Clone, Copy, Debug)]
pub enum DeviceCommand {
    EnableScanning,
    DisableScanning,
    SetDefaults,
    Reset,
}

impl DeviceCommand {
    pub open spec fn spec_byte(self) -> u8 {
        match self {
            DeviceCommand::EnableScanning => 0xF4,
            DeviceCommand::DisableScanning => 0xF5,
            DeviceCommand::SetDefaults => 0xF6,
            DeviceCommand::Reset => 0xFF,
        }
    }

    /// The byte sent on the wire for this command.
    pub fn byte(self) -> (r: u8)
        ensures
            r == self.spec_byte(),
    {
        match self {
            DeviceCommand::EnableScanning => 0xF4,
            DeviceCommand::DisableScanning => 0xF5,
            DeviceCommand::SetDefaults => 0xF6,
            DeviceCommand::Reset => 0xFF,
        }
    }
}

/// A device command with a reply.
#[derive(PartialEq, Eq, Structural, Clone, Copy, Debug)]
pub enum DeviceReturnCommand {
    Resend,
    IdentifyDevice,
}

impl DeviceReturnCommand {
    pub open spec fn spec_byte(self) -> u8 {
        match self {
            DeviceReturnCommand::Resend => 0xFE,
            DeviceReturnCommand::IdentifyDevice => 0xF2,
        }
    }

    /// The byte sent on the wire for this command.
    pub fn byte(self) -> (r: u8)
        ensures
            r == self.spec_byte(),
    {
        match self {
            DeviceReturnCommand::Resend => 0xFE,
            DeviceReturnCommand::IdentifyDevice => 0xF2,
        }
    }
}

/// A keyboard command without a reply and without data (scan set 3 only).
#[derive(PartialEq, Eq, Structural, Clone, Copy, Debug)]
pub enum KeyboardCommand {
    SetAllKeysToRepeatingOnly,
    SetAllKeysToMakeReleaseOnly,
    SetAllKeysToMakeOnly,
    SetAllKeysToRepeatingMakeRelease,
}

impl KeyboardCommand {
    pub open spec fn spec_byte(self) -> u8 {
        match self {
            KeyboardCommand::SetAllKeysToRepeatingOnly => 0xF7,
            KeyboardCommand::SetAllKeysToMakeReleaseOnly => 0xF8,
            KeyboardCommand::SetAllKeysToMakeOnly => 0xF9,
            KeyboardCommand::SetAllKeysToRepeatingMakeRelease => 0xFA,
        }
    }

    /// The byte sent on the wire for this command.
    pub fn byte(self) -> (r: u8)
        ensures
            r == self.spec_byte(),
    {
        match self {
            KeyboardCommand::SetAllKeysToRepeatingOnly => 0xF7,
            KeyboardCommand::SetAllKeysToMakeReleaseOnly => 0xF8,
            KeyboardCommand::SetAllKeysToMakeOnly => 0xF9,
            KeyboardCommand::SetAllKeysToRepeatingMakeRelease => 0xFA,
        }
    }
}

/// A keyboard command followed by a data byte.
#[derive(PartialEq, Eq, Structural, Clone, Copy, Debug)]
pub enum KeyboardDataCommand {
    SetLeds,
    SetTypematicOptions,
    SetKeyRepeatingOnly,
    SetKeyMakeReleaseOnly,
    SetKeyMakeOnly,
}

impl KeyboardDataCommand {
    pub open spec fn spec_byte(self) -> u8 {
        match self {
            KeyboardDataCommand::SetLeds => 0xED,
            KeyboardDataCommand::SetTypematicOptions => 0xF3,
            KeyboardDataCommand::SetKeyRepeatingOnly => 0xFB,
            KeyboardDataCommand::SetKeyMakeReleaseOnly => 0xFC,
            KeyboardDataCommand::SetKeyMakeOnly => 0xFD,
        }
    }

    /// The byte sent on the wire for this command.
    pub fn byte(self) -> (r: u8)
        ensures
            r == self.spec_byte(),
    {
        match self {
            KeyboardDataCommand::SetLeds => 0xED,
            KeyboardDataCommand::SetTypematicOptions => 0xF3,
            KeyboardDataCommand::SetKeyRepeatingOnly => 0xFB,
            KeyboardDataCommand::SetKeyMakeReleaseOnly => 0xFC,
            KeyboardDataCommand::SetKeyMakeOnly => 0xFD,
        }
    }
}

/// A keyboard command with a reply.
#[derive(PartialEq, Eq, Structural, Clone, Copy, Debug)]
pub enum KeyboardReturnCommand {
    Echo,
}

impl KeyboardReturnCommand {
    pub open spec fn spec_byte(self) -> u8 {
        match self {
            KeyboardReturnCommand::Echo => 0xEE,
        }
    }

    /// The byte sent on the wire for this command.
    pub fn byte(self) -> (r: u8)
        ensures
            r == self.spec_byte(),
    {
        match self {
            KeyboardReturnCommand::Echo => 0xEE,
        }
    }
}

/// A mouse command without data.
#[derive(PartialEq, Eq, Structural, Clone, Copy, Debug)]
pub enum MouseCommand {
    SetRemoteMode,
    SetWrapMode,
    ResetWrapMode,
    SetStreamMode,
    StatusRequest,
}

impl MouseCommand {
    pub open spec fn spec_byte(self) -> u8 {
        match self {
            MouseCommand::SetRemoteMode => 0xF0,
            MouseCommand::SetWrapMode => 0xEE,
            MouseCommand::ResetWrapMode => 0xEC,
            MouseCommand::SetStreamMode => 0xEA,
            MouseCommand::StatusRequest => 0xE9,
        }
    }

    /// The byte sent on the wire for this command.
    pub fn byte(self) -> (r: u8)
        ensures
            r == self.spec_byte(),
    {
        match self {
            MouseCommand::SetRemoteMode => 0xF0,
            MouseCommand::SetWrapMode => 0xEE,
            MouseCommand::ResetWrapMode => 0xEC,
            MouseCommand::SetStreamMode => 0xEA,
            MouseCommand::StatusRequest => 0xE9,
        }
    }
}

/// A mouse command followed by a data byte.
#[derive(PartialEq, Eq, Structural, Clone, Copy, Debug)]
pub enum MouseCommandData {
    SetSampleRate,
    SetResolution,
}

impl MouseCommandData {
    pub open spec fn spec_byte(self) -> u8 {
        match self {
            MouseCommandData::SetSampleRate => 0xF3,
            MouseCommandData::SetResolution => 0xE8,
        }
    }

    /// The byte sent on the wire for this command.
    pub fn byte(self) -> (r: u8)
        ensures
            r == self.spec_byte(),
    {
        match self {
            MouseCommandData::SetSampleRate => 0xF3,
            MouseCommandData::SetResolution => 0xE8,
        }
    }
}

} // verus!
