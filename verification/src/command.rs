use vstd::prelude::*;

use crate::envelope::command_serialize;
use crate::envelope::le_hi;
use crate::envelope::le_lo;
use crate::envelope::spec_cmd_frame;
use crate::error::RadarError;

verus! {

// ---------------------------------------------------------------------------
// Opcode registry
// ---------------------------------------------------------------------------

/// The protocol operations the sensor understands. Each carries a
/// fixed 16-bit opcode: a versioned contract with the device, never
/// renumbered.
#[derive(Clone, Copy, Debug, PartialEq, Eq, Structural)]
pub enum CommandOpcode {
    SetResolution,
    ReadResolution,
    SetBasicParameters,
    ReadBasicParameters,
    SetMotionSensitivity,
    ReadMotionSensitivity,
    SetStaticSensitivity,
    ReadStaticSensitivity,
    EnterBackgroundCorrection,
    ReadBackgroundCorrection,
    ReadLightSensorMode,
    EnableEngineeringMode,
    EndEngineeringMode,
    FirmwareVersion,
    SetBaudRate,
    FactoryReset,
    Reboot,
    SetBluetooth,
    ReadMacAddress,
    EndConfiguration,
    EnableConfiguration,
}

impl CommandOpcode {
    /// The wire value of this opcode.
    pub open spec fn spec_code(self) -> u16 {
        match self {
            CommandOpcode::SetResolution => 0x0001,
            CommandOpcode::ReadResolution => 0x0011,
            CommandOpcode::SetBasicParameters => 0x0002,
            CommandOpcode::ReadBasicParameters => 0x0012,
            CommandOpcode::SetMotionSensitivity => 0x0003,
            CommandOpcode::ReadMotionSensitivity => 0x0013,
            CommandOpcode::SetStaticSensitivity => 0x0004,
            CommandOpcode::ReadStaticSensitivity => 0x0014,
            CommandOpcode::EnterBackgroundCorrection => 0x000B,
            CommandOpcode::ReadBackgroundCorrection => 0x001B,
            CommandOpcode::ReadLightSensorMode => 0x001C,
            CommandOpcode::EnableEngineeringMode => 0x0062,
            CommandOpcode::EndEngineeringMode => 0x0063,
            CommandOpcode::FirmwareVersion => 0x00A0,
            CommandOpcode::SetBaudRate => 0x00A1,
            CommandOpcode::FactoryReset => 0x00A2,
            CommandOpcode::Reboot => 0x00A3,
            CommandOpcode::SetBluetooth => 0x00A4,
            CommandOpcode::ReadMacAddress => 0x00A5,
            CommandOpcode::EndConfiguration => 0x00FE,
            CommandOpcode::EnableConfiguration => 0x00FF,
        }
    }

    pub fn code(self) -> (r: u16)
        ensures
            r == self.spec_code(),
    {
        match self {
            CommandOpcode::SetResolution => 0x0001,
            CommandOpcode::ReadResolution => 0x0011,
            CommandOpcode::SetBasicParameters => 0x0002,
            CommandOpcode::ReadBasicParameters => 0x0012,
            CommandOpcode::SetMotionSensitivity => 0x0003,
            CommandOpcode::ReadMotionSensitivity => 0x0013,
            CommandOpcode::SetStaticSensitivity => 0x0004,
            CommandOpcode::ReadStaticSensitivity => 0x0014,
            CommandOpcode::EnterBackgroundCorrection => 0x000B,
            CommandOpcode::ReadBackgroundCorrection => 0x001B,
            CommandOpcode::ReadLightSensorMode => 0x001C,
            CommandOpcode::EnableEngineeringMode => 0x0062,
            CommandOpcode::EndEngineeringMode => 0x0063,
            CommandOpcode::FirmwareVersion => 0x00A0,
            CommandOpcode::SetBaudRate => 0x00A1,
            CommandOpcode::FactoryReset => 0x00A2,
            CommandOpcode::Reboot => 0x00A3,
            CommandOpcode::SetBluetooth => 0x00A4,
            CommandOpcode::ReadMacAddress => 0x00A5,
            CommandOpcode::EndConfiguration => 0x00FE,
            CommandOpcode::EnableConfiguration => 0x00FF,
        }
    }
}

/// Range resolution of one distance gate.
#[allow(non_camel_case_types)]
#[derive(Clone, Copy, Debug, PartialEq, Eq, Structural)]
pub enum RadarResolution {
    cm75,
    cm50,
    cm25,
}

impl RadarResolution {
    /// The wire byte that selects this resolution.
    pub open spec fn spec_byte(self) -> u8 {
        match self {
            RadarResolution::cm75 => 0x00,
            RadarResolution::cm50 => 0x01,
            RadarResolution::cm25 => 0x02,
        }
    }

    pub fn byte(self) -> (r: u8)
        ensures
            r == self.spec_byte(),
    {
        match self {
            RadarResolution::cm75 => 0x00,
            RadarResolution::cm50 => 0x01,
            RadarResolution::cm25 => 0x02,
        }
    }
}

/// The protocol code for an application-level baud value, if the
/// value is in the closed lookup table.
pub open spec fn spec_baud_code(baud: u32) -> Option<u16> {
    if baud == 9600 {
        Some(0x0001u16)
    } else if baud == 19200 {
        Some(0x0002u16)
    } else if baud == 38400 {
        Some(0x0003u16)
    } else if baud == 57600 {
        Some(0x0004u16)
    } else if baud == 115200 {
        Some(0x0005u16)
    } else if baud == 230400 {
        Some(0x0006u16)
    } else if baud == 256000 {
        Some(0x0007u16)
    } else if baud == 460800 {
        Some(0x0008u16)
    } else {
        None
    }
}

// ---------------------------------------------------------------------------
// Builders
// ---------------------------------------------------------------------------

/// Enter configuration mode.
pub fn enable_configuration() -> (r: Vec<u8>)
    ensures
        r@ == spec_cmd_frame(0x00FF, seq![0x01u8, 0x00u8]),
{
    let mut payload: Vec<u8> = Vec::new();
    payload.push(0x01);
    payload.push(0x00);
    proof {
        assert(payload@ =~= seq![0x01u8, 0x00u8]);
    }
    command_serialize(CommandOpcode::EnableConfiguration.code(), payload.as_slice())
}

/// Leave configuration mode.
pub fn end_configuration() -> (r: Vec<u8>)
    ensures
        r@ == spec_cmd_frame(0x00FE, Seq::<u8>::empty()),
{
    empty_payload_command(CommandOpcode::EndConfiguration)
}

/// Select the distance-gate resolution; five reserved zero bytes
/// follow the selection byte.
pub fn set_resolution(resolution: RadarResolution) -> (r: Vec<u8>)
    ensures
        r@ == spec_cmd_frame(
            0x0001,
            seq![resolution.spec_byte(), 0u8, 0u8, 0u8, 0u8, 0u8],
        ),
{
    let mut payload: Vec<u8> = Vec::new();
    payload.push(resolution.byte());
    payload.push(0x00);
    payload.push(0x00);
    payload.push(0x00);
    payload.push(0x00);
    payload.push(0x00);
    proof {
        assert(payload@ =~= seq![resolution.spec_byte(), 0u8, 0u8, 0u8, 0u8, 0u8]);
    }
    command_serialize(CommandOpcode::SetResolution.code(), payload.as_slice())
}

/// Query the configured distance-gate resolution.
pub fn read_resolution() -> (r: Vec<u8>)
    ensures
        r@ == spec_cmd_frame(0x0011, Seq::<u8>::empty()),
{
    empty_payload_command(CommandOpcode::ReadResolution)
}

/// Set the basic detection parameters: nearest and farthest gate,
/// unoccupied duration in seconds, and output polarity.
pub fn set_basic_parameters(
    min_distance: u8,
    max_distance: u8,
    unoccupied_duration: u16,
    polarity: bool,
) -> (r: Vec<u8>)
    ensures
        r@ == spec_cmd_frame(
            0x0002,
            seq![
                min_distance,
                max_distance,
                le_lo(unoccupied_duration),
                le_hi(unoccupied_duration),
                (if polarity {
                    1u8
                } else {
                    0u8
                }),
                0u8,
            ],
        ),
{
    let mut payload: Vec<u8> = Vec::new();
    payload.push(min_distance);
    payload.push(max_distance);
    payload.push((unoccupied_duration % 256) as u8);
    payload.push((unoccupied_duration / 256) as u8);
    payload.push(if polarity { 0x01 } else { 0x00 });
    payload.push(0x00);
    proof {
        assert(payload@ =~= seq![
            min_distance,
            max_distance,
            le_lo(unoccupied_duration),
            le_hi(unoccupied_duration),
            (if polarity {
                1u8
            } else {
                0u8
            }),
            0u8,
        ]);
    }
    command_serialize(CommandOpcode::SetBasicParameters.code(), payload.as_slice())
}

/// Query the basic detection parameters.
pub fn read_basic_parameters() -> (r: Vec<u8>)
    ensures
        r@ == spec_cmd_frame(0x0012, Seq::<u8>::empty()),
{
    empty_payload_command(CommandOpcode::ReadBasicParameters)
}

/// Set the per-gate motion sensitivity, one byte for each of the
/// 14 gates, passed through verbatim.
pub fn set_motion_sensitivity(gates: &[u8]) -> (r: Vec<u8>)
    requires
        gates@.len() == 14,
    ensures
        r@ == spec_cmd_frame(0x0003, gates@),
{
    command_serialize(CommandOpcode::SetMotionSensitivity.code(), gates)
}

/// Query the per-gate motion sensitivity.
pub fn read_motion_sensitivity() -> (r: Vec<u8>)
    ensures
        r@ == spec_cmd_frame(0x0013, Seq::<u8>::empty()),
{
    empty_payload_command(CommandOpcode::ReadMotionSensitivity)
}

/// Set the per-gate static sensitivity, one byte for each of the
/// 14 gates, passed through verbatim.
pub fn set_static_sensitivity(gates: &[u8]) -> (r: Vec<u8>)
    requires
        gates@.len() == 14,
    ensures
        r@ == spec_cmd_frame(0x0004, gates@),
{
    command_serialize(CommandOpcode::SetStaticSensitivity.code(), gates)
}

/// Query the per-gate static sensitivity.
pub fn read_static_sensitivity() -> (r: Vec<u8>)
    ensures
        r@ == spec_cmd_frame(0x0014, Seq::<u8>::empty()),
{
    empty_payload_command(CommandOpcode::ReadStaticSensitivity)
}

/// Set the serial baud rate. Values outside the protocol's closed
/// lookup table are rejected with `UnknownBaudRate`.
pub fn set_baud_rate(baud: u32) -> (r: Result<Vec<u8>, RadarError>)
    ensures
        spec_baud_code(baud) matches Some(code) ==> (r matches Ok(v) && v@ == spec_cmd_frame(
            0x00A1,
            seq![le_lo(code), le_hi(code)],
        )),
        spec_baud_code(baud) is None ==> r matches Err(RadarError::UnknownBaudRate),
{
    let code: u16 = if baud == 9600 {
        0x0001
    } else if baud == 19200 {
        0x0002
    } else if baud == 38400 {
        0x0003
    } else if baud == 57600 {
        0x0004
    } else if baud == 115200 {
        0x0005
    } else if baud == 230400 {
        0x0006
    } else if baud == 256000 {
        0x0007
    } else if baud == 460800 {
        0x0008
    } else {
        return Err(RadarError::UnknownBaudRate);
    };
    let mut payload: Vec<u8> = Vec::new();
    payload.push((code % 256) as u8);
    payload.push((code / 256) as u8);
    proof {
        assert(payload@ =~= seq![le_lo(code), le_hi(code)]);
    }
    Ok(command_serialize(CommandOpcode::SetBaudRate.code(), payload.as_slice()))
}

/// Restore the factory configuration.
pub fn factory_reset() -> (r: Vec<u8>)
    ensures
        r@ == spec_cmd_frame(0x00A2, Seq::<u8>::empty()),
{
    empty_payload_command(CommandOpcode::FactoryReset)
}

/// Restart the sensor.
pub fn reboot() -> (r: Vec<u8>)
    ensures
        r@ == spec_cmd_frame(0x00A3, Seq::<u8>::empty()),
{
    empty_payload_command(CommandOpcode::Reboot)
}

/// Switch the sensor's bluetooth interface on or off.
pub fn set_bluetooth(enabled: bool) -> (r: Vec<u8>)
    ensures
        r@ == spec_cmd_frame(
            0x00A4,
            seq![
                (if enabled {
                    1u8
                } else {
                    0u8
                }),
                0u8,
            ],
        ),
{
    let mut payload: Vec<u8> = Vec::new();
    payload.push(if enabled { 0x01 } else { 0x00 });
    payload.push(0x00);
    proof {
        assert(payload@ =~= seq![
            (if enabled {
                1u8
            } else {
                0u8
            }),
            0u8,
        ]);
    }
    command_serialize(CommandOpcode::SetBluetooth.code(), payload.as_slice())
}

/// Query the sensor's MAC address.
pub fn read_mac_address() -> (r: Vec<u8>)
    ensures
        r@ == spec_cmd_frame(0x00A5, seq![0x01u8, 0x00u8]),
{
    let mut payload: Vec<u8> = Vec::new();
    payload.push(0x01);
    payload.push(0x00);
    proof {
        assert(payload@ =~= seq![0x01u8, 0x00u8]);
    }
    command_serialize(CommandOpcode::ReadMacAddress.code(), payload.as_slice())
}

/// Query the light-sensor mode.
pub fn read_light_sensor_mode() -> (r: Vec<u8>)
    ensures
        r@ == spec_cmd_frame(0x001C, Seq::<u8>::empty()),
{
    empty_payload_command(CommandOpcode::ReadLightSensorMode)
}

/// Query the firmware version.
pub fn read_firmware_version() -> (r: Vec<u8>)
    ensures
        r@ == spec_cmd_frame(0x00A0, Seq::<u8>::empty()),
{
    empty_payload_command(CommandOpcode::FirmwareVersion)
}

/// Start a dynamic background-noise correction pass.
pub fn enter_background_correction() -> (r: Vec<u8>)
    ensures
        r@ == spec_cmd_frame(0x000B, Seq::<u8>::empty()),
{
    empty_payload_command(CommandOpcode::EnterBackgroundCorrection)
}

/// Query whether a background-noise correction pass is running.
pub fn read_background_correction() -> (r: Vec<u8>)
    ensures
        r@ == spec_cmd_frame(0x001B, Seq::<u8>::empty()),
{
    empty_payload_command(CommandOpcode::ReadBackgroundCorrection)
}

/// Switch the sensor into engineering mode, so that reports carry the
/// extended per-gate block.
pub fn set_enable_engineering_mode() -> (r: Vec<u8>)
    ensures
        r@ == spec_cmd_frame(0x0062, Seq::<u8>::empty()),
{
    empty_payload_command(CommandOpcode::EnableEngineeringMode)
}

/// Switch the sensor back out of engineering mode.
pub fn set_end_engineering_mode() -> (r: Vec<u8>)
    ensures
        r@ == spec_cmd_frame(0x0063, Seq::<u8>::empty()),
{
    empty_payload_command(CommandOpcode::EndEngineeringMode)
}

fn empty_payload_command(opcode: CommandOpcode) -> (r: Vec<u8>)
    ensures
        r@ == spec_cmd_frame(opcode.spec_code(), Seq::<u8>::empty()),
{
    let payload: Vec<u8> = Vec::new();
    command_serialize(opcode.code(), payload.as_slice())
}

} // verus!
