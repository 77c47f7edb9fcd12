use vstd::prelude::*;

use crate::envelope::cmd_opcode_of;
use crate::envelope::cmd_payload_of;
use crate::envelope::is_cmd_shaped;
use crate::envelope::is_target_shaped;
use crate::envelope::len_field_ok;
use crate::envelope::RadarLLFrame;
use crate::error::RadarError;

verus! {

/// The sensor's answer to a command: the echoed opcode and the raw
/// response payload. Payload semantics are opcode-specific and are
/// left to the caller, which knows which command it issued.
#[derive(Clone, Debug, PartialEq, Eq)]
pub struct Acknowledgement {
    pub command: u16,
    pub data: Vec<u8>,
}

/// Decode one complete command/acknowledgement frame: unwrap the
/// envelope, require the command/acknowledgement kind, and hand back
/// the opcode and payload untouched.
pub fn eat_ack(buffer: &[u8]) -> (r: Result<Acknowledgement, RadarError>)
    ensures
        !is_cmd_shaped(buffer@) && !is_target_shaped(buffer@) ==> r matches Err(
            RadarError::FrameMalformed,
        ),
        (is_cmd_shaped(buffer@) || is_target_shaped(buffer@)) && !len_field_ok(buffer@)
            ==> r matches Err(RadarError::LengthMismatch),
        is_target_shaped(buffer@) && len_field_ok(buffer@) ==> r matches Err(
            RadarError::FrameMalformed,
        ),
        is_cmd_shaped(buffer@) && len_field_ok(buffer@) ==> (r matches Ok(ack) && ack.command
            == cmd_opcode_of(buffer@) && ack.data@ == cmd_payload_of(buffer@)),
{
    match RadarLLFrame::deserialize(buffer) {
        Err(e) => Err(e),
        Ok(RadarLLFrame::TargetFrame(_)) => Err(RadarError::FrameMalformed),
        Ok(RadarLLFrame::CommandAckFrame(opcode, data)) => Ok(
            Acknowledgement { command: opcode, data },
        ),
    }
}

} // verus!
