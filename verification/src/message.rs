//! The wording of protocol errors.

use vstd::prelude::*;
use vstd::string::StringExecFns;

verus! {

/// The character for one digit, decimal or upper-case hexadecimal.
pub open spec fn digit_char(digit: int) -> char {
    if digit == 0 {
        '0'
    } else if digit == 1 {
        '1'
    } else if digit == 2 {
        '2'
    } else if digit == 3 {
        '3'
    } else if digit == 4 {
        '4'
    } else if digit == 5 {
        '5'
    } else if digit == 6 {
        '6'
    } else if digit == 7 {
        '7'
    } else if digit == 8 {
        '8'
    } else if digit == 9 {
        '9'
    } else if digit == 10 {
        'A'
    } else if digit == 11 {
        'B'
    } else if digit == 12 {
        'C'
    } else if digit == 13 {
        'D'
    } else if digit == 14 {
        'E'
    } else {
        'F'
    }
}

/// A number in decimal, without leading zeros.
pub open spec fn decimal_text(n: nat) -> Seq<char>
    decreases n,
{
    if n < 10 {
        seq![digit_char(n as int)]
    } else {
        decimal_text(n / 10).push(digit_char((n % 10) as int))
    }
}

/// A byte as `0x` and two upper-case hexadecimal digits.
pub open spec fn hex_byte_text(byte: u8) -> Seq<char> {
    seq!['0', 'x', digit_char(byte as int / 16), digit_char(byte as int % 16)]
}

/// Bytes in decimal, separated by a comma and a space.
pub open spec fn byte_items_text(bytes: Seq<u8>) -> Seq<char>
    decreases bytes.len(),
{
    if bytes.len() == 0 {
        Seq::empty()
    } else if bytes.len() == 1 {
        decimal_text(bytes[0] as nat)
    } else {
        byte_items_text(bytes.drop_last()) + seq![',', ' '] + decimal_text(bytes.last() as nat)
    }
}

/// Bytes as a bracketed list of decimal numbers.
pub open spec fn byte_list_text(bytes: Seq<u8>) -> Seq<char> {
    seq!['['] + byte_items_text(bytes) + seq![']']
}

/// What is said of two bytes that should have been the frame marker.
pub open spec fn marker_text(first: u8, second: u8) -> Seq<char> {
    "expected [0xCA, 0xAC], received ["@ + hex_byte_text(first) + seq![',', ' '] + hex_byte_text(
        second,
    ) + seq![']']
}

/// What is said of a calibration reply that is not two bytes long.
pub open spec fn reply_length_text(pending: u32) -> Seq<char> {
    "expected 2 bytes, received "@ + decimal_text(pending as nat)
}

/// What is said of pending bytes that do not open with the ready text.
pub open spec fn ready_text(received: Seq<u8>) -> Seq<char> {
    "expected \"PMD is ready!\", received "@ + byte_list_text(received)
}

/// What is said of a frame that is out of sequence.
pub open spec fn sequence_text(expected: u16, received: u16) -> Seq<char> {
    "expected sequence "@ + decimal_text(expected as nat) + ", received "@ + decimal_text(
        received as nat,
    )
}

/// What is said of a response that does not answer the pending request.
pub open spec fn unexpected_text() -> Seq<char> {
    "response does not answer the pending request"@
}

/// One digit as a string.
fn digit_str(digit: u8) -> (text: &'static str)
    requires
        digit < 16,
    ensures
        text@ == seq![digit_char(digit as int)],
{
    proof {
        reveal_strlit("0");
        reveal_strlit("1");
        reveal_strlit("2");
        reveal_strlit("3");
        reveal_strlit("4");
        reveal_strlit("5");
        reveal_strlit("6");
        reveal_strlit("7");
        reveal_strlit("8");
        reveal_strlit("9");
        reveal_strlit("A");
        reveal_strlit("B");
        reveal_strlit("C");
        reveal_strlit("D");
        reveal_strlit("E");
        reveal_strlit("F");
    }
    if digit == 0 {
        "0"
    } else if digit == 1 {
        "1"
    } else if digit == 2 {
        "2"
    } else if digit == 3 {
        "3"
    } else if digit == 4 {
        "4"
    } else if digit == 5 {
        "5"
    } else if digit == 6 {
        "6"
    } else if digit == 7 {
        "7"
    } else if digit == 8 {
        "8"
    } else if digit == 9 {
        "9"
    } else if digit == 10 {
        "A"
    } else if digit == 11 {
        "B"
    } else if digit == 12 {
        "C"
    } else if digit == 13 {
        "D"
    } else if digit == 14 {
        "E"
    } else {
        "F"
    }
}

/// Appends a number in decimal.
fn append_decimal(out: &mut String, n: u64)
    ensures
        final(out)@ == old(out)@ + decimal_text(n as nat),
    decreases n,
{
    if n >= 10 {
        append_decimal(out, n / 10);
    }
    out.append(digit_str((n % 10) as u8));
    assert(out@ =~= old(out)@ + decimal_text(n as nat));
}

/// Writes a number in decimal.
pub fn decimal_string(n: u64) -> (text: String)
    ensures
        text@ == decimal_text(n as nat),
{
    let mut text = String::new();
    append_decimal(&mut text, n);
    assert(text@ =~= decimal_text(n as nat));
    text
}

/// Appends a byte in hexadecimal.
fn append_hex_byte(out: &mut String, byte: u8)
    ensures
        final(out)@ == old(out)@ + hex_byte_text(byte),
{
    proof {
        reveal_strlit("0x");
    }
    out.append("0x");
    out.append(digit_str(byte / 16));
    out.append(digit_str(byte % 16));
    assert(out@ =~= old(out)@ + hex_byte_text(byte));
}

/// Appends a bracketed list of bytes in decimal.
fn append_byte_list(out: &mut String, bytes: &[u8])
    ensures
        final(out)@ == old(out)@ + byte_list_text(bytes@),
{
    proof {
        reveal_strlit("[");
        reveal_strlit(", ");
        reveal_strlit("]");
    }
    out.append("[");
    let mut i: usize = 0;
    while i < bytes.len()
        invariant
            i <= bytes.len(),
            out@ == old(out)@ + seq!['['] + byte_items_text(bytes@.take(i as int)),
            ", "@ == seq![',', ' '],
        decreases bytes.len() - i,
    {
        if i > 0 {
            out.append(", ");
        }
        append_decimal(out, bytes[i] as u64);
        proof {
            let before = bytes@.take(i as int);
            let after = bytes@.take(i + 1);
            assert(after.drop_last() =~= before);
            assert(after.last() == bytes@[i as int]);
            assert(out@ =~= old(out)@ + seq!['['] + byte_items_text(after));
        }
        i += 1;
    }
    assert(bytes@.take(i as int) =~= bytes@);
    out.append("]");
    assert(out@ =~= old(out)@ + byte_list_text(bytes@));
}

/// Words the finding that two bytes are not the frame marker.
pub fn marker_message(first: u8, second: u8) -> (message: String)
    ensures
        message@ == marker_text(first, second),
{
    proof {
        reveal_strlit(", ");
        reveal_strlit("]");
    }
    let mut message = String::from_str("expected [0xCA, 0xAC], received [");
    append_hex_byte(&mut message, first);
    message.append(", ");
    append_hex_byte(&mut message, second);
    message.append("]");
    assert(message@ =~= marker_text(first, second));
    message
}

/// Words the finding that a calibration reply is not two bytes long.
pub fn reply_length_message(pending: u32) -> (message: String)
    ensures
        message@ == reply_length_text(pending),
{
    let mut message = String::from_str("expected 2 bytes, received ");
    append_decimal(&mut message, pending as u64);
    message
}

/// Words the finding that pending bytes do not open with the ready text.
pub fn ready_message(received: &[u8]) -> (message: String)
    ensures
        message@ == ready_text(received@),
{
    let mut message = String::from_str("expected \"PMD is ready!\", received ");
    append_byte_list(&mut message, received);
    message
}

/// Words the finding that a frame is out of sequence.
pub fn sequence_message(expected: u16, received: u16) -> (message: String)
    ensures
        message@ == sequence_text(expected, received),
{
    let mut message = String::from_str("expected sequence ");
    append_decimal(&mut message, expected as u64);
    message.append(", received ");
    append_decimal(&mut message, received as u64);
    assert(message@ =~= sequence_text(expected, received));
    message
}

/// Words the finding that a response does not answer the pending request.
pub fn unexpected_message() -> (message: String)
    ensures
        message@ == unexpected_text(),
{
    String::from_str("response does not answer the pending request")
}

} // verus!
