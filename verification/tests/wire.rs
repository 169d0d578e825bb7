use powenetics_v2::frame::calibrate_command;
use powenetics_v2::frame::check_marker;
use powenetics_v2::frame::check_prefix;
use powenetics_v2::frame::check_ready;
use powenetics_v2::frame::fixed_command;
use powenetics_v2::frame::read_current;
use powenetics_v2::frame::read_sequence;
use powenetics_v2::frame::read_voltage;
use powenetics_v2::frame::BEGIN_STREAMING;
use powenetics_v2::frame::FINALIZE_CALIBRATION;
use powenetics_v2::frame::FRAME_LEN;
use powenetics_v2::frame::POWENETICS_READY_MESSAGE;
use powenetics_v2::frame::RESET_CALIBRATION;
use powenetics_v2::tally;
use powenetics_v2::transport::is_instrument;
use powenetics_v2::transport::POWENETICS_BAUD_RATE;
use powenetics_v2::transport::POWENETICS_READ_TIMEOUT_MILLIS;
use powenetics_v2::after_dispatch;
use powenetics_v2::PoweneticsError;
use powenetics_v2::Request;
use powenetics_v2::POWENETICS_USB_PID;
use powenetics_v2::POWENETICS_USB_VID;

#[test]
fn frame_is_sixty_nine_bytes_long() {
    assert_eq!(FRAME_LEN, 69);
    assert_eq!(FRAME_LEN, 2 + 2 + 13 * 5);
}

#[test]
fn fixed_commands_are_bit_exact() {
    assert_eq!(RESET_CALIBRATION, [0xCA, 0xAC, 0xBD, 0x00]);
    assert_eq!(FINALIZE_CALIBRATION, [0xCA, 0xAC, 0xBD, 0x01]);
    assert_eq!(BEGIN_STREAMING, [0xCA, 0xAC, 0xBD, 0x90]);
    assert_eq!(fixed_command(BEGIN_STREAMING), vec![0xCA, 0xAC, 0xBD, 0x90]);
    assert_eq!(fixed_command([1, 2, 3, 4]), vec![1, 2, 3, 4]);
}

#[test]
fn usb_identity_is_fixed() {
    assert_eq!(POWENETICS_USB_VID, 0x04d8);
    assert_eq!(POWENETICS_USB_PID, 0x000a);
    assert!(is_instrument(0x04d8, 0x000a));
    assert!(!is_instrument(0x000a, 0x04d8));
    assert!(!is_instrument(0x04d8, 0x000b));
    assert!(!is_instrument(0, 0));
}

#[test]
fn serial_link_parameters_are_fixed() {
    assert_eq!(POWENETICS_BAUD_RATE, 921_600);
    assert_eq!(POWENETICS_READ_TIMEOUT_MILLIS, 5);
}

#[test]
fn calibrate_command_matches_the_big_endian_encoding() {
    for reference in [0u32, 1, 255, 256, 65_535, 65_536, 0x00FF_FFFF, 0x0100_0000, 0xDEAD_BEEF] {
        let mut expected = vec![0xCA, 9];
        expected.extend_from_slice(&reference.to_be_bytes()[1..]);
        assert_eq!(calibrate_command(9, reference), expected);
    }
    assert_eq!(calibrate_command(3, 0xDEAD_BEEF), vec![0xCA, 0x03, 0xAD, 0xBE, 0xEF]);
}

#[test]
fn marker_is_found_only_at_the_front() {
    assert!(check_marker(&[0xCA, 0xAC]));
    assert!(check_marker(&[0xCA, 0xAC, 0x00]));
    assert!(!check_marker(&[0xAC, 0xCA]));
    assert!(!check_marker(&[0x00, 0xCA, 0xAC]));
    assert!(!check_marker(&[0xCA]));
    assert!(!check_marker(&[]));
}

#[test]
fn sequence_voltage_and_current_are_read_from_their_offsets() {
    let mut frame = vec![0u8; 69];
    for (index, byte) in frame.iter_mut().enumerate() {
        *byte = index as u8;
    }
    assert_eq!(read_sequence(&frame), 0x0203);
    assert_eq!(read_voltage(&frame, 0), 0x0405);
    assert_eq!(read_current(&frame, 0), 0x0006_0708);
    assert_eq!(read_voltage(&frame, 1), 0x090A);
    assert_eq!(read_current(&frame, 1), 0x000B_0C0D);
    assert_eq!(read_voltage(&frame, 12), 0x4041);
    assert_eq!(read_current(&frame, 12), 0x0042_4344);
}

#[test]
fn prefix_check_compares_the_leading_bytes() {
    assert!(check_prefix(b"abc", b""));
    assert!(check_prefix(b"abc", b"ab"));
    assert!(check_prefix(b"abc", b"abc"));
    assert!(!check_prefix(b"abc", b"abcd"));
    assert!(!check_prefix(b"abc", b"b"));
    assert!(!check_prefix(b"", b"a"));
}

#[test]
fn ready_check_agrees_with_lossy_decoding() {
    assert_eq!(POWENETICS_READY_MESSAGE, "PMD is ready!");
    let samples: Vec<Vec<u8>> = vec![
        b"PMD is ready!".to_vec(),
        b"PMD is ready!\n".to_vec(),
        b"PMD is ready".to_vec(),
        b" PMD is ready!".to_vec(),
        b"pmd is ready!".to_vec(),
        vec![],
        vec![0xFF; 20],
        [&b"PMD is ready!"[..], &[0xC3, 0x28, 0xFF][..]].concat(),
        [&[0xEF, 0xBF, 0xBD][..], &b"PMD is ready!"[..]].concat(),
    ];
    for sample in samples {
        let lossy = String::from_utf8_lossy(&sample).starts_with(POWENETICS_READY_MESSAGE);
        assert_eq!(check_ready(&sample), lossy);
    }
}

#[test]
fn a_stop_vote_stands_once_made() {
    assert!(matches!(tally(false, Ok(false)), Ok(false)));
    assert!(matches!(tally(false, Ok(true)), Ok(true)));
    assert!(matches!(tally(true, Ok(false)), Ok(true)));
    assert!(matches!(tally(true, Ok(true)), Ok(true)));
}

#[test]
fn a_failed_vote_becomes_a_subscriber_error() {
    for stop in [false, true] {
        match tally(stop, Err(anyhow::Error::msg("went wrong"))) {
            Err(PoweneticsError::Subscriber(error)) => assert_eq!(error.to_string(), "went wrong"),
            other => panic!("expected a subscriber error, got {:?}", other),
        }
    }
}

#[test]
fn the_verdict_decides_what_follows_a_frame() {
    assert!(matches!(after_dispatch(Ok(false)), Ok(Request::Read(69))));
    assert!(matches!(after_dispatch(Ok(true)), Ok(Request::Done)));
    let failed = after_dispatch(Err(PoweneticsError::Subscriber(anyhow::Error::msg("no"))));
    assert!(matches!(failed, Err(PoweneticsError::Subscriber(_))));
    assert!(matches!(after_dispatch(Err(PoweneticsError::SystemTime)), Err(PoweneticsError::SystemTime)));
}
