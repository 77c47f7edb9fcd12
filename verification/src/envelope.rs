use vstd::prelude::*;

use crate::error::RadarError;

verus! {

// ---------------------------------------------------------------------------
// Little-endian 16-bit helpers
// ---------------------------------------------------------------------------

/// The 16-bit value stored little-endian in the two bytes `lo`, `hi`.
pub open spec fn u16_le_spec(lo: u8, hi: u8) -> u16 {
    (lo + hi * 256) as u16
}

/// Low byte of the little-endian encoding of `v`.
pub open spec fn le_lo(v: u16) -> u8 {
    (v % 256) as u8
}

/// High byte of the little-endian encoding of `v`.
pub open spec fn le_hi(v: u16) -> u8 {
    (v / 256) as u8
}

pub proof fn lemma_u16_le_round_trip(v: u16)
    ensures
        u16_le_spec(le_lo(v), le_hi(v)) == v,
{
    vstd::arithmetic::div_mod::lemma_fundamental_div_mod(v as int, 256);
}

pub proof fn lemma_u16_le_bytes(lo: u8, hi: u8)
    ensures
        le_lo(u16_le_spec(lo, hi)) == lo,
        le_hi(u16_le_spec(lo, hi)) == hi,
{
    vstd::arithmetic::div_mod::lemma_fundamental_div_mod_converse(
        lo + hi * 256,
        256,
        hi as int,
        lo as int,
    );
}

pub(crate) fn u16_from_le(lo: u8, hi: u8) -> (r: u16)
    ensures
        r == u16_le_spec(lo, hi),
{
    (lo as u16) + (hi as u16) * 256
}

/// Copy of the bytes `s[from..to]` as a fresh vector.
pub(crate) fn copy_range(s: &[u8], from: usize, to: usize) -> (r: Vec<u8>)
    requires
        from <= to <= s@.len(),
    ensures
        r@ == s@.subrange(from as int, to as int),
{
    let mut v: Vec<u8> = Vec::new();
    let mut i: usize = from;
    proof {
        assert(v@ =~= s@.subrange(from as int, from as int));
    }
    while i < to
        invariant
            from <= i <= to <= s@.len(),
            v@ == s@.subrange(from as int, i as int),
        decreases to - i,
    {
        v.push(s[i]);
        proof {
            assert(v@ =~= s@.subrange(from as int, (i + 1) as int));
        }
        i = i + 1;
    }
    v
}

// ---------------------------------------------------------------------------
// Wire shapes
// ---------------------------------------------------------------------------

/// First and last four bytes carry the command/acknowledgement magic pair.
pub open spec fn has_cmd_magic(b: Seq<u8>) -> bool {
    &&& b.len() >= 8
    &&& b[0] == 0xFD
    &&& b[1] == 0xFC
    &&& b[2] == 0xFB
    &&& b[3] == 0xFA
    &&& b[b.len() - 4] == 0x04
    &&& b[b.len() - 3] == 0x03
    &&& b[b.len() - 2] == 0x02
    &&& b[b.len() - 1] == 0x01
}

/// First and last four bytes carry the target-report magic pair.
pub open spec fn has_target_magic(b: Seq<u8>) -> bool {
    &&& b.len() >= 8
    &&& b[0] == 0xF4
    &&& b[1] == 0xF3
    &&& b[2] == 0xF2
    &&& b[3] == 0xF1
    &&& b[b.len() - 4] == 0xF8
    &&& b[b.len() - 3] == 0xF7
    &&& b[b.len() - 2] == 0xF6
    &&& b[b.len() - 1] == 0xF5
}

/// `b` is large enough to be a command/acknowledgement envelope
/// (prefix, length field, opcode, suffix) and carries its magic pair.
pub open spec fn is_cmd_shaped(b: Seq<u8>) -> bool {
    b.len() >= 12 && has_cmd_magic(b)
}

/// `b` is large enough to be a target-report envelope
/// (prefix, length field, suffix) and carries its magic pair.
pub open spec fn is_target_shaped(b: Seq<u8>) -> bool {
    b.len() >= 10 && has_target_magic(b)
}

/// The value of the length field that follows the prefix.
pub open spec fn declared_len(b: Seq<u8>) -> int {
    u16_le_spec(b[4], b[5]) as int
}

/// The length field agrees with the actual size of the buffer: for a
/// command envelope it counts the opcode and the payload, for a target
/// envelope the intraframe, and both equal `b.len() - 10`.
pub open spec fn len_field_ok(b: Seq<u8>) -> bool {
    declared_len(b) == b.len() - 10
}

/// The opcode of a command/acknowledgement envelope.
pub open spec fn cmd_opcode_of(b: Seq<u8>) -> u16 {
    u16_le_spec(b[6], b[7])
}

/// The payload of a command/acknowledgement envelope.
pub open spec fn cmd_payload_of(b: Seq<u8>) -> Seq<u8> {
    b.subrange(8, b.len() - 4)
}

/// The intraframe payload of a target-report envelope.
pub open spec fn target_payload_of(b: Seq<u8>) -> Seq<u8> {
    b.subrange(6, b.len() - 4)
}

/// The exact wire bytes of a command/acknowledgement frame:
/// prefix, length field (payload length + 2, little-endian), opcode
/// (little-endian), payload, suffix.
pub open spec fn spec_cmd_frame(opcode: u16, payload: Seq<u8>) -> Seq<u8> {
    seq![0xFDu8, 0xFCu8, 0xFBu8, 0xFAu8]
        + seq![le_lo((payload.len() + 2) as u16), le_hi((payload.len() + 2) as u16)]
        + seq![le_lo(opcode), le_hi(opcode)]
        + payload
        + seq![0x04u8, 0x03u8, 0x02u8, 0x01u8]
}

// ---------------------------------------------------------------------------
// Frames
// ---------------------------------------------------------------------------

/// One fully delimited wire unit. `CommandAckFrame` travels in both
/// directions; `TargetFrame` is produced only by decoding and has no
/// encode path.
#[derive(Clone, Debug, PartialEq)]
pub enum RadarLLFrame {
    CommandAckFrame(u16, Vec<u8>),
    TargetFrame(Vec<u8>),
}

/// Wrap an opcode and payload in the command/acknowledgement envelope.
pub fn command_serialize(opcode: u16, data: &[u8]) -> (r: Vec<u8>)
    requires
        data@.len() + 2 <= u16::MAX,
    ensures
        r@ == spec_cmd_frame(opcode, data@),
{
    let len_field: u16 = (data.len() as u16) + 2;
    let mut buffer: Vec<u8> = Vec::new();
    buffer.push(0xFD);
    buffer.push(0xFC);
    buffer.push(0xFB);
    buffer.push(0xFA);
    buffer.push((len_field % 256) as u8);
    buffer.push((len_field / 256) as u8);
    buffer.push((opcode % 256) as u8);
    buffer.push((opcode / 256) as u8);
    let ghost header: Seq<u8> = buffer@;
    let mut i: usize = 0;
    proof {
        assert(buffer@ =~= header + data@.subrange(0, 0));
    }
    while i < data.len()
        invariant
            0 <= i <= data@.len(),
            buffer@ == header + data@.subrange(0, i as int),
        decreases data@.len() - i,
    {
        buffer.push(data[i]);
        proof {
            assert(buffer@ =~= header + data@.subrange(0, (i + 1) as int));
        }
        i = i + 1;
    }
    proof {
        assert(data@.subrange(0, data@.len() as int) =~= data@);
    }
    buffer.push(0x04);
    buffer.push(0x03);
    buffer.push(0x02);
    buffer.push(0x01);
    proof {
        assert(buffer@ =~= spec_cmd_frame(opcode, data@));
    }
    buffer
}

impl RadarLLFrame {
    /// Wire bytes of a command frame. Only `CommandAckFrame` can be
    /// serialized: a target report is decode-only by design.
    pub fn serialize(&self) -> (r: Vec<u8>)
        requires
            self matches RadarLLFrame::CommandAckFrame(_opcode, data) && data@.len() + 2
                <= u16::MAX,
        ensures
            self matches RadarLLFrame::CommandAckFrame(opcode, data) ==> r@ == spec_cmd_frame(
                *opcode,
                data@,
            ),
    {
        match self {
            RadarLLFrame::CommandAckFrame(opcode, data) => command_serialize(
                *opcode,
                data.as_slice(),
            ),
            RadarLLFrame::TargetFrame(_) => vstd::pervasive::unreached(),
        }
    }

    /// Classify and unwrap one complete frame.
    ///
    /// The contract decides every case: a buffer without a recognized
    /// magic pair is `FrameMalformed`; one whose length field disagrees
    /// with its actual size is `LengthMismatch`; otherwise the opcode
    /// and payload (or the intraframe) come back exactly as framed.
    pub fn deserialize(buffer: &[u8]) -> (r: Result<RadarLLFrame, RadarError>)
        ensures
            !is_cmd_shaped(buffer@) && !is_target_shaped(buffer@) ==> r matches Err(
                RadarError::FrameMalformed,
            ),
            is_cmd_shaped(buffer@) && !len_field_ok(buffer@) ==> r matches Err(
                RadarError::LengthMismatch,
            ),
            is_target_shaped(buffer@) && !len_field_ok(buffer@) ==> r matches Err(
                RadarError::LengthMismatch,
            ),
            is_cmd_shaped(buffer@) && len_field_ok(buffer@) ==> (r matches Ok(
                RadarLLFrame::CommandAckFrame(opcode, data),
            ) && opcode == cmd_opcode_of(buffer@) && data@ == cmd_payload_of(buffer@)),
            is_target_shaped(buffer@) && len_field_ok(buffer@) ==> (r matches Ok(
                RadarLLFrame::TargetFrame(intraframe),
            ) && intraframe@ == target_payload_of(buffer@)),
    {
        let n = buffer.len();
        if n >= 12 && buffer[0] == 0xFD && buffer[1] == 0xFC && buffer[2] == 0xFB && buffer[3]
            == 0xFA && buffer[n - 4] == 0x04 && buffer[n - 3] == 0x03 && buffer[n - 2] == 0x02
            && buffer[n - 1] == 0x01 {
            let declared = u16_from_le(buffer[4], buffer[5]);
            if declared as usize != n - 10 {
                return Err(RadarError::LengthMismatch);
            }
            let opcode = u16_from_le(buffer[6], buffer[7]);
            let data = copy_range(buffer, 8, n - 4);
            Ok(RadarLLFrame::CommandAckFrame(opcode, data))
        } else if n >= 10 && buffer[0] == 0xF4 && buffer[1] == 0xF3 && buffer[2] == 0xF2
            && buffer[3] == 0xF1 && buffer[n - 4] == 0xF8 && buffer[n - 3] == 0xF7 && buffer[n - 2]
            == 0xF6 && buffer[n - 1] == 0xF5 {
            let declared = u16_from_le(buffer[4], buffer[5]);
            if declared as usize != n - 10 {
                return Err(RadarError::LengthMismatch);
            }
            let intraframe = copy_range(buffer, 6, n - 4);
            Ok(RadarLLFrame::TargetFrame(intraframe))
        } else {
            Err(RadarError::FrameMalformed)
        }
    }
}

// ---------------------------------------------------------------------------
// Laws
// ---------------------------------------------------------------------------

/// Round trip: a command frame encoded for any opcode and any payload
/// that fits the 16-bit length field is command-shaped, satisfies the
/// length check, and decodes back to exactly the same opcode and
/// payload. Together with `deserialize`'s contract this makes
/// encode-then-decode lossless.
pub proof fn lemma_cmd_round_trip(opcode: u16, payload: Seq<u8>)
    requires
        payload.len() + 2 <= u16::MAX,
    ensures
        is_cmd_shaped(spec_cmd_frame(opcode, payload)),
        !is_target_shaped(spec_cmd_frame(opcode, payload)),
        len_field_ok(spec_cmd_frame(opcode, payload)),
        cmd_opcode_of(spec_cmd_frame(opcode, payload)) == opcode,
        cmd_payload_of(spec_cmd_frame(opcode, payload)) == payload,
{
    let enc = spec_cmd_frame(opcode, payload);
    assert(enc.len() == payload.len() + 12);
    lemma_u16_le_round_trip((payload.len() + 2) as u16);
    lemma_u16_le_round_trip(opcode);
    assert(cmd_payload_of(enc) =~= payload);
}

/// The inverse identity: any buffer that decodes as a command frame
/// re-encodes, from the opcode and payload it decoded to, into
/// exactly the original bytes. Together with `lemma_cmd_round_trip`
/// this makes the command envelope codec lossless in both directions.
pub proof fn lemma_cmd_frame_identity(b: Seq<u8>)
    requires
        is_cmd_shaped(b),
        len_field_ok(b),
    ensures
        spec_cmd_frame(cmd_opcode_of(b), cmd_payload_of(b)) == b,
{
    let payload = cmd_payload_of(b);
    assert(payload.len() == b.len() - 12);
    assert(declared_len(b) == payload.len() + 2);
    assert((payload.len() + 2) as u16 == u16_le_spec(b[4], b[5]));
    lemma_u16_le_bytes(b[4], b[5]);
    lemma_u16_le_bytes(b[6], b[7]);
    assert(spec_cmd_frame(cmd_opcode_of(b), cmd_payload_of(b)) =~= b);
}

/// A buffer that carries neither magic pair is never decoded as a
/// frame: by `deserialize`'s contract it yields `FrameMalformed`.
pub proof fn lemma_unrecognized_magic(b: Seq<u8>)
    requires
        !has_cmd_magic(b),
        !has_target_magic(b),
    ensures
        !is_cmd_shaped(b),
        !is_target_shaped(b),
{
}

} // verus!
