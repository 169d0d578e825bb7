//! The layout of what travels over the wire: measurement frames, commands
//! and the replies to them.

use crate::channel::CHANNEL_COUNT;
use crate::channel::MAX_CURRENT;
use vstd::prelude::*;
use vstd::string::is_ascii_spec_bytes;
use vstd::string::StringSliceAdditionalSpecFns;

verus! {

/// The length of a measurement frame: marker, sequence number and one
/// reading per channel.
pub const FRAME_LEN: usize = 69;

/// The length of what precedes the readings in a frame.
pub const HEADER_LEN: usize = 4;

/// The length of one reading: two bytes of voltage, three of current.
pub const READING_LEN: usize = 5;

/// The two bytes that open every frame and every fixed command.
pub const MARKER: [u8; 2] = [0xCA, 0xAC];

/// The byte that opens a calibration command.
pub const CALIBRATE: u8 = 0xCA;

/// The command that discards the stored calibration.
pub const RESET_CALIBRATION: [u8; 4] = [0xCA, 0xAC, 0xBD, 0x00];

/// The command that ends calibration.
pub const FINALIZE_CALIBRATION: [u8; 4] = [0xCA, 0xAC, 0xBD, 0x01];

/// The command that makes the instrument stream frames.
pub const BEGIN_STREAMING: [u8; 4] = [0xCA, 0xAC, 0xBD, 0x90];

/// What the instrument says once calibration is finalized.
pub const POWENETICS_READY_MESSAGE: &'static str = "PMD is ready!";

/// Whether the bytes open with the marker.
pub open spec fn has_marker(bytes: Seq<u8>) -> bool {
    bytes.len() >= 2 && bytes[0] == 0xCA && bytes[1] == 0xAC
}

/// The sequence number of a frame: bytes 2 and 3, big-endian.
pub open spec fn sequence_of(frame: Seq<u8>) -> u16 {
    (frame[2] * 256 + frame[3]) as u16
}

/// Where the reading of a channel starts in a frame.
pub open spec fn reading_offset(channel: int) -> int {
    HEADER_LEN + channel * READING_LEN
}

/// The voltage a frame reports for a channel: two bytes, big-endian.
pub open spec fn voltage_of(frame: Seq<u8>, channel: int) -> u16 {
    let at = reading_offset(channel);
    (frame[at] * 256 + frame[at + 1]) as u16
}

/// The current a frame reports for a channel: three bytes, big-endian.
pub open spec fn current_of(frame: Seq<u8>, channel: int) -> u32 {
    let at = reading_offset(channel);
    (frame[at + 2] * 65536 + frame[at + 3] * 256 + frame[at + 4]) as u32
}

/// The power a frame reports for a channel: millivolts times milliamps.
pub open spec fn power_of(frame: Seq<u8>, channel: int) -> int {
    voltage_of(frame, channel) * current_of(frame, channel)
}

/// The command that calibrates a channel against a reference current: the
/// command byte, the channel and the low three bytes of the reference,
/// big-endian.
pub open spec fn calibrate_command_of(channel: u8, reference: u32) -> Seq<u8> {
    seq![
        CALIBRATE,
        channel,
        (reference / 65536 % 256) as u8,
        (reference / 256 % 256) as u8,
        (reference % 256) as u8,
    ]
}

/// Whether `bytes` begins with `prefix`.
pub open spec fn begins_with(bytes: Seq<u8>, prefix: Seq<u8>) -> bool {
    prefix.len() <= bytes.len() && bytes.take(prefix.len() as int) == prefix
}

/// Whether the bytes open with the ready text.
pub open spec fn is_ready(bytes: Seq<u8>) -> bool {
    begins_with(bytes, POWENETICS_READY_MESSAGE.spec_bytes())
}

/// The ready text on the wire, byte by byte.
pub proof fn lemma_ready_bytes()
    ensures
        POWENETICS_READY_MESSAGE.spec_bytes() == seq![
            0x50u8,
            0x4D,
            0x44,
            0x20,
            0x69,
            0x73,
            0x20,
            0x72,
            0x65,
            0x61,
            0x64,
            0x79,
            0x21,
        ],
{
    reveal_strlit("PMD is ready!");
    is_ascii_spec_bytes(POWENETICS_READY_MESSAGE);
    assert(POWENETICS_READY_MESSAGE.spec_bytes() =~= seq![
        0x50u8,
        0x4D,
        0x44,
        0x20,
        0x69,
        0x73,
        0x20,
        0x72,
        0x65,
        0x61,
        0x64,
        0x79,
        0x21,
    ]);
}

/// Tells whether the bytes open with the marker.
pub fn check_marker(bytes: &[u8]) -> (found: bool)
    ensures
        found == has_marker(bytes@),
{
    bytes.len() >= 2 && bytes[0] == MARKER[0] && bytes[1] == MARKER[1]
}

/// Reads the sequence number of a frame.
pub fn read_sequence(frame: &[u8]) -> (sequence: u16)
    requires
        frame@.len() == FRAME_LEN,
    ensures
        sequence == sequence_of(frame@),
{
    (frame[2] as u16) * 256 + (frame[3] as u16)
}

/// Reads the voltage a frame reports for a channel.
pub fn read_voltage(frame: &[u8], channel: usize) -> (voltage: u16)
    requires
        frame@.len() == FRAME_LEN,
        channel < CHANNEL_COUNT,
    ensures
        voltage == voltage_of(frame@, channel as int),
{
    let at: usize = HEADER_LEN + channel * READING_LEN;
    (frame[at] as u16) * 256 + (frame[at + 1] as u16)
}

/// Reads the current a frame reports for a channel.
pub fn read_current(frame: &[u8], channel: usize) -> (current: u32)
    requires
        frame@.len() == FRAME_LEN,
        channel < CHANNEL_COUNT,
    ensures
        current == current_of(frame@, channel as int),
        current <= MAX_CURRENT,
{
    let at: usize = HEADER_LEN + channel * READING_LEN;
    (frame[at + 2] as u32) * 65536 + (frame[at + 3] as u32) * 256 + (frame[at + 4] as u32)
}

/// Builds the command that calibrates a channel against a reference current.
pub fn calibrate_command(channel: u8, reference: u32) -> (command: Vec<u8>)
    ensures
        command@ == calibrate_command_of(channel, reference),
{
    let mut command: Vec<u8> = Vec::new();
    command.push(CALIBRATE);
    command.push(channel);
    command.push((reference / 65536 % 256) as u8);
    command.push((reference / 256 % 256) as u8);
    command.push((reference % 256) as u8);
    assert(command@ =~= calibrate_command_of(channel, reference));
    command
}

/// Copies a fixed command into a buffer of its own.
pub fn fixed_command(command: [u8; 4]) -> (bytes: Vec<u8>)
    ensures
        bytes@ == command@,
{
    let mut bytes: Vec<u8> = Vec::new();
    bytes.push(command[0]);
    bytes.push(command[1]);
    bytes.push(command[2]);
    bytes.push(command[3]);
    assert(bytes@ =~= command@);
    bytes
}

/// Tells whether `bytes` begins with `prefix`.
pub fn check_prefix(bytes: &[u8], prefix: &[u8]) -> (found: bool)
    ensures
        found == begins_with(bytes@, prefix@),
{
    if prefix.len() > bytes.len() {
        return false;
    }
    let mut i: usize = 0;
    while i < prefix.len()
        invariant
            i <= prefix.len(),
            prefix.len() <= bytes.len(),
            forall|j: int| 0 <= j < i ==> bytes@[j] == prefix@[j],
        decreases prefix.len() - i,
    {
        if bytes[i] != prefix[i] {
            assert(bytes@.take(prefix@.len() as int)[i as int] != prefix@[i as int]);
            return false;
        }
        i += 1;
    }
    assert(bytes@.take(prefix@.len() as int) =~= prefix@);
    true
}

/// Tells whether the bytes open with the ready text.
pub fn check_ready(bytes: &[u8]) -> (found: bool)
    ensures
        found == is_ready(bytes@),
{
    check_prefix(bytes, POWENETICS_READY_MESSAGE.as_bytes())
}

} // verus!
