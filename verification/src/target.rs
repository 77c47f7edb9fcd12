use vstd::prelude::*;

use crate::envelope::copy_range;
use crate::envelope::is_cmd_shaped;
use crate::envelope::is_target_shaped;
use crate::envelope::len_field_ok;
use crate::envelope::target_payload_of;
use crate::envelope::u16_from_le;
use crate::envelope::u16_le_spec;
use crate::envelope::RadarLLFrame;
use crate::error::RadarError;

verus! {

// ---------------------------------------------------------------------------
// Decoded values
// ---------------------------------------------------------------------------

/// Detection phase reported by the sensor, one byte on the wire
/// (0x00 through 0x06). Any other byte is invalid input, not a state.
#[derive(Clone, Copy, Debug, PartialEq, Eq, Structural)]
pub enum TargetState {
    Untargeted,
    Campaign,
    Stationary,
    MotionAndStationary,
    NoiseDetectionInProgress,
    NoiseDetectionSuccess,
    NoiseDetectionFailed,
}

/// One detected target: distance in centimeters and relative signal
/// strength.
#[derive(Clone, Copy, Debug, PartialEq, Eq, Structural)]
pub struct Target {
    pub distance: u16,
    pub energy: u8,
}

/// The part of every report that is always present.
#[derive(Clone, Copy, Debug, PartialEq, Eq, Structural)]
pub struct BasicTargetData {
    pub state: TargetState,
    pub moving_target: Target,
    pub stationary_target: Target,
}

/// Extended diagnostics, present only in engineering-mode reports:
/// two raw diagnostic bytes, per-gate energies for moving and
/// stationary targets (14 gates each), and an ambient-light byte.
#[derive(Clone, Debug, PartialEq, Eq)]
pub struct EngineeringModeData {
    pub b1: u8,
    pub b2: u8,
    pub moving_gates: Vec<u8>,
    pub stationary_gates: Vec<u8>,
    pub light: u8,
}

/// One decoded detection report. `engineering_mode_data` is present
/// exactly when the intraframe discriminator selects extended mode.
/// The trailing calibration byte has no documented meaning; it is
/// exposed as the signed value it carries so nothing is dropped.
#[derive(Clone, Debug, PartialEq, Eq)]
pub struct TargetData {
    pub basic_target_data: BasicTargetData,
    pub engineering_mode_data: Option<EngineeringModeData>,
    pub calibration: i8,
}

// ---------------------------------------------------------------------------
// Intraframe layout
// ---------------------------------------------------------------------------

/// The state named by a wire byte in 0x00..=0x06.
pub open spec fn spec_target_state(b: u8) -> TargetState {
    if b == 0 {
        TargetState::Untargeted
    } else if b == 1 {
        TargetState::Campaign
    } else if b == 2 {
        TargetState::Stationary
    } else if b == 3 {
        TargetState::MotionAndStationary
    } else if b == 4 {
        TargetState::NoiseDetectionInProgress
    } else if b == 5 {
        TargetState::NoiseDetectionSuccess
    } else {
        TargetState::NoiseDetectionFailed
    }
}

/// The signed value of one raw byte (two's complement).
pub open spec fn spec_i8_of(b: u8) -> i8 {
    if b < 128 {
        b as i8
    } else {
        (b - 256) as i8
    }
}

/// The intraframe starts with a discriminator byte and an 0xAA marker
/// and ends with an 0x55 marker and a calibration byte.
pub open spec fn intraframe_markers_ok(p: Seq<u8>) -> bool {
    &&& p.len() >= 4
    &&& p[1] == 0xAA
    &&& p[p.len() - 2] == 0x55
}

/// A fully well-formed intraframe: markers in place, a known
/// discriminator (0x01 extended, 0x02 basic), the exact length that
/// the discriminator demands, and a state byte inside the enumeration.
pub open spec fn intraframe_well_formed(p: Seq<u8>) -> bool {
    &&& intraframe_markers_ok(p)
    &&& (p[0] == 0x01 || p[0] == 0x02)
    &&& (p[0] == 0x01 ==> p.len() == 42)
    &&& (p[0] == 0x02 ==> p.len() == 11)
    &&& p[2] <= 6
}

/// Which error a malformed intraframe yields: broken markers first,
/// then an unknown discriminator, then a length that contradicts the
/// discriminator, and last a state byte outside the enumeration.
pub open spec fn intraframe_error(p: Seq<u8>) -> RadarError {
    if !intraframe_markers_ok(p) {
        RadarError::FrameMalformed
    } else if p[0] != 0x01 && p[0] != 0x02 {
        RadarError::UnknownDiscriminator
    } else if (p[0] == 0x01 && p.len() != 42) || (p[0] == 0x02 && p.len() != 11) {
        RadarError::FrameMalformed
    } else {
        RadarError::UnknownTargetState
    }
}

/// The basic target block at bytes 2..9 of a well-formed intraframe.
pub open spec fn spec_basic_target_data(p: Seq<u8>) -> BasicTargetData {
    BasicTargetData {
        state: spec_target_state(p[2]),
        moving_target: Target { distance: u16_le_spec(p[3], p[4]), energy: p[5] },
        stationary_target: Target { distance: u16_le_spec(p[6], p[7]), energy: p[8] },
    }
}

/// `e` holds exactly the extended block of a 42-byte intraframe:
/// diagnostic bytes 9 and 10, moving gates 11..25, stationary gates
/// 25..39, ambient light at byte 39.
pub open spec fn engineering_matches(e: EngineeringModeData, p: Seq<u8>) -> bool {
    &&& e.b1 == p[9]
    &&& e.b2 == p[10]
    &&& e.moving_gates@ == p.subrange(11, 25)
    &&& e.stationary_gates@ == p.subrange(25, 39)
    &&& e.light == p[39]
}

/// `td` is exactly the decoding of the well-formed intraframe `p`:
/// the basic block, the calibration byte, and the extended block
/// present if and only if the discriminator selects it.
pub open spec fn target_data_matches(td: TargetData, p: Seq<u8>) -> bool {
    &&& td.basic_target_data == spec_basic_target_data(p)
    &&& td.calibration == spec_i8_of(p[p.len() - 1])
    &&& (p[0] == 0x02 ==> td.engineering_mode_data is None)
    &&& (p[0] == 0x01 ==> (td.engineering_mode_data matches Some(e) && engineering_matches(
        e,
        p,
    )))
}

// ---------------------------------------------------------------------------
// Decoding
// ---------------------------------------------------------------------------

fn target_state_of(b: u8) -> (r: TargetState)
    requires
        b <= 6,
    ensures
        r == spec_target_state(b),
{
    if b == 0 {
        TargetState::Untargeted
    } else if b == 1 {
        TargetState::Campaign
    } else if b == 2 {
        TargetState::Stationary
    } else if b == 3 {
        TargetState::MotionAndStationary
    } else if b == 4 {
        TargetState::NoiseDetectionInProgress
    } else if b == 5 {
        TargetState::NoiseDetectionSuccess
    } else {
        TargetState::NoiseDetectionFailed
    }
}

/// Decode the intraframe payload of a target report: discriminator,
/// 0xAA marker, target bytes, 0x55 marker, calibration byte.
///
/// Succeeds exactly on well-formed intraframes; otherwise the error
/// names the first rule that the bytes break.
pub fn decode_intraframe(p: &[u8]) -> (r: Result<TargetData, RadarError>)
    ensures
        intraframe_well_formed(p@) ==> (r matches Ok(td) && target_data_matches(td, p@)),
        !intraframe_well_formed(p@) ==> (r matches Err(e) && e == intraframe_error(p@)),
{
    let n = p.len();
    if !(n >= 4 && p[1] == 0xAA && p[n - 2] == 0x55) {
        return Err(RadarError::FrameMalformed);
    }
    let datatype = p[0];
    if datatype != 0x01 && datatype != 0x02 {
        return Err(RadarError::UnknownDiscriminator);
    }
    if (datatype == 0x01 && n != 42) || (datatype == 0x02 && n != 11) {
        return Err(RadarError::FrameMalformed);
    }
    let state_byte = p[2];
    if state_byte > 6 {
        return Err(RadarError::UnknownTargetState);
    }
    let basic = BasicTargetData {
        state: target_state_of(state_byte),
        moving_target: Target { distance: u16_from_le(p[3], p[4]), energy: p[5] },
        stationary_target: Target { distance: u16_from_le(p[6], p[7]), energy: p[8] },
    };
    let engineering_mode_data = if datatype == 0x01 {
        Some(
            EngineeringModeData {
                b1: p[9],
                b2: p[10],
                moving_gates: copy_range(p, 11, 25),
                stationary_gates: copy_range(p, 25, 39),
                light: p[39],
            },
        )
    } else {
        None
    };
    let calib_byte = p[n - 1];
    let calibration: i8 = if calib_byte < 128 {
        calib_byte as i8
    } else {
        ((calib_byte as i16) - 256) as i8
    };
    Ok(TargetData { basic_target_data: basic, engineering_mode_data, calibration })
}

/// Decode one complete target-report frame: unwrap the envelope,
/// require the target-report kind, then decode the intraframe.
///
/// Envelope failures come back as `deserialize` classifies them; a
/// command/acknowledgement frame is the wrong kind and is
/// `FrameMalformed`; a target frame decodes by `decode_intraframe`'s
/// contract.
pub fn eat_packet(buffer: &[u8]) -> (r: Result<TargetData, RadarError>)
    ensures
        !is_cmd_shaped(buffer@) && !is_target_shaped(buffer@) ==> r matches Err(
            RadarError::FrameMalformed,
        ),
        (is_cmd_shaped(buffer@) || is_target_shaped(buffer@)) && !len_field_ok(buffer@)
            ==> r matches Err(RadarError::LengthMismatch),
        is_cmd_shaped(buffer@) && len_field_ok(buffer@) ==> r matches Err(
            RadarError::FrameMalformed,
        ),
        is_target_shaped(buffer@) && len_field_ok(buffer@) && intraframe_well_formed(
            target_payload_of(buffer@),
        ) ==> (r matches Ok(td) && target_data_matches(td, target_payload_of(buffer@))),
        is_target_shaped(buffer@) && len_field_ok(buffer@) && !intraframe_well_formed(
            target_payload_of(buffer@),
        ) ==> (r matches Err(e) && e == intraframe_error(target_payload_of(buffer@))),
{
    match RadarLLFrame::deserialize(buffer) {
        Err(e) => Err(e),
        Ok(RadarLLFrame::CommandAckFrame(_, _)) => Err(RadarError::FrameMalformed),
        Ok(RadarLLFrame::TargetFrame(intraframe)) => decode_intraframe(intraframe.as_slice()),
    }
}

// ---------------------------------------------------------------------------
// Laws
// ---------------------------------------------------------------------------

/// Discriminator exhaustiveness, the error half: an intraframe with
/// intact markers whose discriminator is neither 0x01 nor 0x02 is
/// never well formed and always classified `UnknownDiscriminator`.
/// The decoding halves stand in `target_data_matches`: 0x01 makes
/// `engineering_mode_data` present, 0x02 makes it absent.
pub proof fn lemma_unknown_discriminator(p: Seq<u8>)
    requires
        intraframe_markers_ok(p),
        p[0] != 0x01,
        p[0] != 0x02,
    ensures
        !intraframe_well_formed(p),
        intraframe_error(p) == RadarError::UnknownDiscriminator,
{
}

} // verus!
