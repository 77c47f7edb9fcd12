use vstd::prelude::*;

verus! {

/// Everything that can go wrong while encoding or decoding a frame.
/// All variants are recoverable results, never aborts: the bytes come
/// from an external device and may be corrupted or desynchronized.
#[derive(Clone, Copy, Debug, PartialEq, Eq, Structural)]
pub enum RadarError {
    /// The buffer does not match any known prefix/suffix magic pair,
    /// or an intraframe payload does not have the required shape.
    FrameMalformed,
    /// The declared length field disagrees with the actual payload length.
    LengthMismatch,
    /// The intraframe datatype byte selects no known report layout.
    UnknownDiscriminator,
    /// The target state byte lies outside the defined enumeration.
    UnknownTargetState,
    /// The requested baud value is absent from the protocol lookup table.
    UnknownBaudRate,
}

} // verus!
