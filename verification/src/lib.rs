//! Codec for the serial protocol of a single-chip presence radar sensor.
//!
//! The library converts typed command requests into wire-exact byte frames
//! and decodes inbound frames into acknowledgements or target reports.
//! It performs no I/O: the transport hands it one complete, already
//! delimited frame per call.

use vstd::prelude::*;

pub mod ack;
pub mod command;
pub mod envelope;
pub mod error;
pub mod target;

pub use ack::eat_ack;
pub use ack::Acknowledgement;
pub use command::enable_configuration;
pub use command::end_configuration;
pub use command::enter_background_correction;
pub use command::factory_reset;
pub use command::read_background_correction;
pub use command::read_basic_parameters;
pub use command::read_firmware_version;
pub use command::read_light_sensor_mode;
pub use command::read_mac_address;
pub use command::read_motion_sensitivity;
pub use command::read_resolution;
pub use command::read_static_sensitivity;
pub use command::reboot;
pub use command::set_basic_parameters;
pub use command::set_baud_rate;
pub use command::set_bluetooth;
pub use command::set_enable_engineering_mode;
pub use command::set_end_engineering_mode;
pub use command::set_motion_sensitivity;
pub use command::set_resolution;
pub use command::set_static_sensitivity;
pub use command::CommandOpcode;
pub use command::RadarResolution;
pub use envelope::command_serialize;
pub use envelope::RadarLLFrame;
pub use error::RadarError;
pub use target::decode_intraframe;
pub use target::eat_packet;
pub use target::BasicTargetData;
pub use target::EngineeringModeData;
pub use target::Target;
pub use target::TargetData;
pub use target::TargetState;

verus! {

/// A command source that the surrounding application may implement:
/// something that knows its protocol opcode and its raw payload bytes.
pub trait RadarDriver {
    fn get_opcode(&self) -> u16;

    fn serialize_data(&self) -> Vec<u8>;
}

} // verus!
