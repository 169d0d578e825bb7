use powenetics_v2::message::marker_message;
use powenetics_v2::message::ready_message;
use powenetics_v2::message::reply_length_message;
use powenetics_v2::message::sequence_message;
use powenetics_v2::message::unexpected_message;

#[test]
fn marker_message_shows_both_bytes_in_hexadecimal() {
    assert_eq!(marker_message(0x00, 0xFF), "expected [0xCA, 0xAC], received [0x00, 0xFF]");
    assert_eq!(marker_message(0xAC, 0xCA), "expected [0xCA, 0xAC], received [0xAC, 0xCA]");
    assert_eq!(marker_message(0x1B, 0x9E), "expected [0xCA, 0xAC], received [0x1B, 0x9E]");
}

#[test]
fn marker_message_matches_the_standard_formatting_of_every_byte() {
    for byte in 0..=255u8 {
        let expected = format!("expected [0xCA, 0xAC], received [{:#04X}, {:#04X}]", byte, 255 - byte);
        assert_eq!(marker_message(byte, 255 - byte), expected);
    }
}

#[test]
fn reply_length_message_shows_the_count_in_decimal() {
    assert_eq!(reply_length_message(0), "expected 2 bytes, received 0");
    assert_eq!(reply_length_message(7), "expected 2 bytes, received 7");
    assert_eq!(reply_length_message(10), "expected 2 bytes, received 10");
    assert_eq!(reply_length_message(1_000), "expected 2 bytes, received 1000");
    assert_eq!(reply_length_message(u32::MAX), "expected 2 bytes, received 4294967295");
}

#[test]
fn sequence_message_shows_both_numbers_in_decimal() {
    assert_eq!(sequence_message(1, 0), "expected sequence 1, received 0");
    assert_eq!(sequence_message(0, 65_535), "expected sequence 0, received 65535");
    assert_eq!(sequence_message(4_096, 909), "expected sequence 4096, received 909");
}

#[test]
fn ready_message_lists_what_was_received() {
    assert_eq!(ready_message(&[]), "expected \"PMD is ready!\", received []");
    assert_eq!(ready_message(&[7]), "expected \"PMD is ready!\", received [7]");
    assert_eq!(ready_message(&[0, 100, 255]), "expected \"PMD is ready!\", received [0, 100, 255]");
    let bytes: Vec<u8> = (0..=255).collect();
    assert_eq!(ready_message(&bytes), format!("expected \"PMD is ready!\", received {:?}", bytes));
}

#[test]
fn unexpected_message_names_the_trouble() {
    assert_eq!(unexpected_message(), "response does not answer the pending request");
}
