use ld2412::eat_ack;
use ld2412::eat_packet;
use ld2412::decode_intraframe;
use ld2412::Acknowledgement;
use ld2412::RadarError;
use ld2412::RadarLLFrame;
use ld2412::TargetState;

fn wrap_target(intraframe: &[u8]) -> Vec<u8> {
    let mut bytes = vec![0xF4, 0xF3, 0xF2, 0xF1];
    let len = intraframe.len() as u16;
    bytes.push((len % 256) as u8);
    bytes.push((len / 256) as u8);
    bytes.extend_from_slice(intraframe);
    bytes.extend_from_slice(&[0xF8, 0xF7, 0xF6, 0xF5]);
    bytes
}

fn basic_intraframe() -> Vec<u8> {
    vec![0x02, 0xAA, 0x02, 0x64, 0x00, 0x32, 0xC8, 0x00, 0x1E, 0x55, 0x05]
}

#[test]
fn decode_basic_report() {
    let bytes = wrap_target(&basic_intraframe());
    let data = eat_packet(&bytes).unwrap();
    assert_eq!(data.basic_target_data.state, TargetState::Stationary);
    assert_eq!(data.basic_target_data.moving_target.distance, 100);
    assert_eq!(data.basic_target_data.moving_target.energy, 50);
    assert_eq!(data.basic_target_data.stationary_target.distance, 200);
    assert_eq!(data.basic_target_data.stationary_target.energy, 30);
    assert!(data.engineering_mode_data.is_none());
    assert_eq!(data.calibration, 5);
}

#[test]
fn decode_engineering_report() {
    let mut intraframe = vec![0x01, 0xAA, 0x03, 0x2C, 0x01, 0x28, 0x90, 0x01, 0x14, 0x07, 0x08];
    let moving_gates: Vec<u8> = (0..14).collect();
    let stationary_gates: Vec<u8> = (100..114).collect();
    intraframe.extend_from_slice(&moving_gates);
    intraframe.extend_from_slice(&stationary_gates);
    intraframe.push(0x42);
    intraframe.push(0x55);
    intraframe.push(0xFB);
    assert_eq!(intraframe.len(), 42);
    let bytes = wrap_target(&intraframe);
    let data = eat_packet(&bytes).unwrap();
    assert_eq!(data.basic_target_data.state, TargetState::MotionAndStationary);
    assert_eq!(data.basic_target_data.moving_target.distance, 300);
    assert_eq!(data.basic_target_data.moving_target.energy, 40);
    assert_eq!(data.basic_target_data.stationary_target.distance, 400);
    assert_eq!(data.basic_target_data.stationary_target.energy, 20);
    let eng = data.engineering_mode_data.expect("extended block must be present");
    assert_eq!(eng.b1, 0x07);
    assert_eq!(eng.b2, 0x08);
    assert_eq!(eng.moving_gates, moving_gates);
    assert_eq!(eng.stationary_gates, stationary_gates);
    assert_eq!(eng.light, 0x42);
    assert_eq!(data.calibration, -5);
}

#[test]
fn discriminator_selects_engineering_block() {
    let basic = eat_packet(&wrap_target(&basic_intraframe())).unwrap();
    assert!(basic.engineering_mode_data.is_none());

    let mut extended = basic_intraframe();
    extended[0] = 0x01;
    extended.truncate(9);
    extended.extend_from_slice(&[0u8; 33]);
    extended[40] = 0x55;
    let data = eat_packet(&wrap_target(&extended)).unwrap();
    assert!(data.engineering_mode_data.is_some());
}

#[test]
fn unknown_discriminator_is_rejected() {
    let mut intraframe = basic_intraframe();
    intraframe[0] = 0x03;
    let bytes = wrap_target(&intraframe);
    assert_eq!(eat_packet(&bytes), Err(RadarError::UnknownDiscriminator));
}

#[test]
fn unknown_target_state_is_rejected() {
    let mut intraframe = basic_intraframe();
    intraframe[2] = 0x07;
    let bytes = wrap_target(&intraframe);
    assert_eq!(eat_packet(&bytes), Err(RadarError::UnknownTargetState));
}

#[test]
fn broken_intraframe_markers_are_rejected() {
    let mut intraframe = basic_intraframe();
    intraframe[1] = 0xAB;
    assert_eq!(
        eat_packet(&wrap_target(&intraframe)),
        Err(RadarError::FrameMalformed)
    );

    let mut intraframe = basic_intraframe();
    intraframe[9] = 0x56;
    assert_eq!(
        eat_packet(&wrap_target(&intraframe)),
        Err(RadarError::FrameMalformed)
    );
}

#[test]
fn intraframe_length_contradicting_discriminator_is_rejected() {
    let mut intraframe = basic_intraframe();
    intraframe[0] = 0x01;
    assert_eq!(
        decode_intraframe(&intraframe),
        Err(RadarError::FrameMalformed)
    );
}

#[test]
fn decode_ack() {
    let bytes = [
        0xFD, 0xFC, 0xFB, 0xFA, 0x04, 0x00, 0x11, 0x00, 0xAA, 0xBB, 0x04, 0x03, 0x02, 0x01,
    ];
    let ack = eat_ack(&bytes).unwrap();
    assert_eq!(
        ack,
        Acknowledgement { command: 0x0011, data: vec![0xAA, 0xBB] }
    );
}

#[test]
fn ack_length_mismatch() {
    let bytes = [
        0xFD, 0xFC, 0xFB, 0xFA, 0x05, 0x00, 0x11, 0x00, 0xAA, 0xBB, 0x04, 0x03, 0x02, 0x01,
    ];
    assert_eq!(eat_ack(&bytes), Err(RadarError::LengthMismatch));
    assert!(matches!(
        RadarLLFrame::deserialize(&bytes),
        Err(RadarError::LengthMismatch)
    ));
}

#[test]
fn target_length_mismatch() {
    let mut bytes = wrap_target(&basic_intraframe());
    bytes[4] = 0x0C;
    assert_eq!(eat_packet(&bytes), Err(RadarError::LengthMismatch));
    assert!(matches!(
        RadarLLFrame::deserialize(&bytes),
        Err(RadarError::LengthMismatch)
    ));
}

#[test]
fn unrecognized_magic_is_malformed() {
    let no_magic = [0x00u8, 0x01, 0x02, 0x03, 0x04, 0x05, 0x06, 0x07, 0x08, 0x09, 0x0A, 0x0B];
    assert!(matches!(
        RadarLLFrame::deserialize(&no_magic),
        Err(RadarError::FrameMalformed)
    ));

    // Right prefix, wrong suffix.
    let mut bytes = wrap_target(&basic_intraframe());
    let n = bytes.len();
    bytes[n - 1] = 0x00;
    assert!(matches!(
        RadarLLFrame::deserialize(&bytes),
        Err(RadarError::FrameMalformed)
    ));

    // Command prefix paired with the target suffix is no known pair.
    let mixed = [
        0xFD, 0xFC, 0xFB, 0xFA, 0x02, 0x00, 0x11, 0x00, 0xF8, 0xF7, 0xF6, 0xF5,
    ];
    assert!(matches!(
        RadarLLFrame::deserialize(&mixed),
        Err(RadarError::FrameMalformed)
    ));

    assert!(matches!(
        RadarLLFrame::deserialize(&[]),
        Err(RadarError::FrameMalformed)
    ));

    // Too short to hold a frame, even with both magics in place.
    let short = [0xFD, 0xFC, 0xFB, 0xFA, 0x04, 0x03, 0x02, 0x01];
    assert!(matches!(
        RadarLLFrame::deserialize(&short),
        Err(RadarError::FrameMalformed)
    ));
}

#[test]
fn wrong_frame_kind_for_decoder() {
    let ack_bytes = [
        0xFD, 0xFC, 0xFB, 0xFA, 0x02, 0x00, 0x11, 0x00, 0x04, 0x03, 0x02, 0x01,
    ];
    assert_eq!(eat_packet(&ack_bytes), Err(RadarError::FrameMalformed));
    let target_bytes = wrap_target(&basic_intraframe());
    assert_eq!(eat_ack(&target_bytes), Err(RadarError::FrameMalformed));
}

#[test]
fn deserialize_recovers_target_intraframe() {
    let intraframe = basic_intraframe();
    match RadarLLFrame::deserialize(&wrap_target(&intraframe)) {
        Ok(RadarLLFrame::TargetFrame(p)) => assert_eq!(p, intraframe),
        other => panic!("expected a target frame, got {:?}", other),
    }
}

#[test]
fn decode_then_encode_identity() {
    let bytes = vec![
        0xFD, 0xFC, 0xFB, 0xFA, 0x04, 0x00, 0x11, 0x00, 0xAA, 0xBB, 0x04, 0x03, 0x02, 0x01,
    ];
    match RadarLLFrame::deserialize(&bytes) {
        Ok(frame @ RadarLLFrame::CommandAckFrame(_, _)) => assert_eq!(frame.serialize(), bytes),
        other => panic!("expected a command frame, got {:?}", other),
    }
}

#[test]
fn calibration_byte_sign() {
    let mut intraframe = basic_intraframe();
    intraframe[10] = 0x80;
    let data = eat_packet(&wrap_target(&intraframe)).unwrap();
    assert_eq!(data.calibration, -128);
    let mut intraframe = basic_intraframe();
    intraframe[10] = 0x7F;
    let data = eat_packet(&wrap_target(&intraframe)).unwrap();
    assert_eq!(data.calibration, 127);
}
