use salsa::direction::Direction;
use salsa::protocol::{
    decode_response, encode_command, handle, on_read, ReadOutcome, TelescopeCommand,
    TelescopeResponse,
};
use salsa::telescope::TelescopeError;

const DIRECTION_FRAME: [u8; 13] = [
    0x57, 0x00, 0x00, 0x00, 0x00, 0x00, 0x00, 0x00, 0x00, 0x00, 0x00, 0x6F, 0x20,
];
const STOP_FRAME: [u8; 13] = [
    0x57, 0x00, 0x00, 0x00, 0x00, 0x00, 0x00, 0x00, 0x00, 0x00, 0x00, 0x0F, 0x20,
];
const DIRECTION_ACK: [u8; 12] = [
    0x58, 0x00, 0x00, 0x00, 0x00, 0x00, 0x00, 0x00, 0x00, 0x00, 0x00, 0x20,
];
const STOP_ACK: [u8; 12] = [
    0x57, 0x00, 0x00, 0x00, 0x00, 0x00, 0x00, 0x00, 0x00, 0x00, 0x00, 0x20,
];

#[test]
fn direction_frame_gets_direction_ack() {
    assert_eq!(DIRECTION_ACK, handle(&DIRECTION_FRAME[0..12]));
    assert_eq!(ReadOutcome::Reply(DIRECTION_ACK), on_read(&DIRECTION_FRAME, Some(13)));
}

#[test]
fn stop_frame_gets_stop_ack() {
    assert_eq!(STOP_ACK, handle(&STOP_FRAME[0..12]));
    assert_eq!(ReadOutcome::Reply(STOP_ACK), on_read(&STOP_FRAME, Some(13)));
}

#[test]
fn unknown_frame_gets_cleared_status() {
    let mut frame = DIRECTION_FRAME;
    frame[3] = 0x01;
    match on_read(&frame, Some(13)) {
        ReadOutcome::Reply(answer) => {
            assert_eq!(frame[0..11], answer[0..11]);
            assert_eq!(0x00, answer[11]);
        }
        other => panic!("unexpected outcome {:?}", other),
    }
    let request = [0x42, 1, 2, 3, 4, 5, 6, 7, 8, 9, 10, 0x20];
    assert_eq!([0x42, 1, 2, 3, 4, 5, 6, 7, 8, 9, 10, 0x00], handle(&request));
}

#[test]
fn thirteenth_byte_is_not_looked_at() {
    let mut frame = STOP_FRAME;
    frame[12] = 0xAA;
    assert_eq!(ReadOutcome::Reply(STOP_ACK), on_read(&frame, Some(13)));
}

#[test]
fn closed_and_short_reads() {
    assert_eq!(ReadOutcome::Closed, on_read(&DIRECTION_FRAME, Some(0)));
    assert_eq!(ReadOutcome::Ignored, on_read(&DIRECTION_FRAME, Some(12)));
    assert_eq!(ReadOutcome::Ignored, on_read(&DIRECTION_FRAME, Some(1)));
    assert_eq!(ReadOutcome::Ignored, on_read(&DIRECTION_FRAME, None));
}

#[test]
fn plain_commands_encode_to_recognized_frames() {
    assert_eq!(DIRECTION_FRAME.to_vec(), encode_command(TelescopeCommand::GetDirection).unwrap());
    assert_eq!(STOP_FRAME.to_vec(), encode_command(TelescopeCommand::Stop).unwrap());
    let restart = encode_command(TelescopeCommand::Restart).unwrap();
    assert_eq!(13, restart.len());
    assert_eq!(0xF0, restart[11]);
}

#[test]
fn pointing_command_carries_digits() {
    // 123.45 degrees azimuth, 45.67 degrees elevation.
    let cmd = TelescopeCommand::SetDirection(Direction { azimuth: 123_450_000, elevation: 45_670_000 });
    let frame = encode_command(cmd).unwrap();
    assert_eq!(
        vec![0x57, 4, 8, 3, 4, 0x0A, 4, 0, 5, 6, 0x0A, 0x2F, 0x20],
        frame
    );
    let negative = TelescopeCommand::SetDirection(Direction { azimuth: -10_000_000, elevation: 0 });
    assert_eq!(
        vec![0x57, 3, 5, 0, 0, 0x0A, 3, 6, 0, 0, 0x0A, 0x2F, 0x20],
        encode_command(negative).unwrap()
    );
}

#[test]
fn unwritable_direction_is_refused() {
    let cmd = TelescopeCommand::SetDirection(Direction { azimuth: 640_000_000, elevation: 0 });
    assert!(matches!(encode_command(cmd), Err(TelescopeError::TelescopeIOError(_))));
    let cmd = TelescopeCommand::SetDirection(Direction { azimuth: 0, elevation: -360_000_001 });
    assert!(matches!(encode_command(cmd), Err(TelescopeError::TelescopeIOError(_))));
}

#[test]
fn direction_response_is_decoded() {
    let frame = [0x58, 4, 8, 3, 4, 0x0A, 4, 0, 5, 6, 0x0A, 0x20];
    assert_eq!(
        TelescopeResponse::CurrentDirection(Direction { azimuth: 123_400_000, elevation: 45_600_000 }),
        decode_response(TelescopeCommand::GetDirection, &frame).unwrap()
    );
    // The simulated controller's acknowledgement reads as all digits zero.
    assert_eq!(
        TelescopeResponse::CurrentDirection(Direction { azimuth: -360_000_000, elevation: -360_000_000 }),
        decode_response(TelescopeCommand::GetDirection, &DIRECTION_ACK).unwrap()
    );
}

#[test]
fn unacknowledged_responses_fail() {
    let not_understood = [0x57, 0, 0, 0, 0, 0, 0, 0, 0, 0, 0, 0x00];
    assert!(matches!(
        decode_response(TelescopeCommand::Stop, &not_understood),
        Err(TelescopeError::TelescopeIOError(_))
    ));
    assert!(decode_response(TelescopeCommand::GetDirection, &STOP_ACK).is_err());
    assert!(decode_response(TelescopeCommand::Stop, &STOP_ACK[0..11]).is_err());
    let bad_digit = [0x58, 10, 0, 0, 0, 0, 0, 0, 0, 0, 0, 0x20];
    assert!(decode_response(TelescopeCommand::GetDirection, &bad_digit).is_err());
    assert_eq!(
        TelescopeResponse::Ack,
        decode_response(TelescopeCommand::Stop, &STOP_ACK).unwrap()
    );
}
