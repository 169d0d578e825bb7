//! What the engine and the owner of the transport say to each other, and
//! how the transport is to be opened.

use vstd::prelude::*;

verus! {

/// The USB vendor id under which the instrument shows up.
pub const POWENETICS_USB_VID: u16 = 0x4d8;

/// The USB product id under which the instrument shows up.
pub const POWENETICS_USB_PID: u16 = 0xa;

/// The speed of the serial link, in baud; the link carries eight data bits,
/// no parity and one stop bit.
pub const POWENETICS_BAUD_RATE: u32 = 921600;

/// How long a read may block, in milliseconds.
pub const POWENETICS_READ_TIMEOUT_MILLIS: u64 = 5;

/// Whether a USB device with these ids is the instrument.
pub open spec fn spec_is_instrument(vid: u16, pid: u16) -> bool {
    vid == POWENETICS_USB_VID && pid == POWENETICS_USB_PID
}

/// Tells whether a USB device with these ids is the instrument.
#[verifier::when_used_as_spec(spec_is_instrument)]
pub fn is_instrument(vid: u16, pid: u16) -> (found: bool)
    ensures
        found == spec_is_instrument(vid, pid),
{
    vid == POWENETICS_USB_VID && pid == POWENETICS_USB_PID
}

/// What the engine asks its owner to do on the transport.
#[derive(Debug)]
pub enum Request {
    /// Write all of the bytes, then flush.
    Write(Vec<u8>),
    /// Wait for this many milliseconds.
    Pause(u64),
    /// Tell how many bytes are waiting to be read.
    Pending,
    /// Read exactly this many bytes.
    Read(usize),
    /// Nothing: the exchange is over.
    Done,
}

/// A [`Request`] as a mathematical value.
pub ghost enum RequestView {
    Write(Seq<u8>),
    Pause(u64),
    Pending,
    Read(usize),
    Done,
}

impl View for Request {
    type V = RequestView;

    open spec fn view(&self) -> RequestView {
        match *self {
            Request::Write(bytes) => RequestView::Write(bytes@),
            Request::Pause(millis) => RequestView::Pause(millis),
            Request::Pending => RequestView::Pending,
            Request::Read(len) => RequestView::Read(len),
            Request::Done => RequestView::Done,
        }
    }
}

/// What came of a [`Request`].
#[derive(Debug)]
pub enum Response {
    /// The bytes were written and flushed.
    Written,
    /// The pause is over.
    Paused,
    /// This many bytes are waiting to be read.
    Pending(u32),
    /// These bytes were read.
    Data(Vec<u8>),
    /// Reading, writing or flushing failed.
    Failed(std::io::Error),
    /// The serial port failed to say how many bytes are waiting.
    PortFailed(serialport::Error),
}

/// A [`Response`] as a mathematical value.
pub ghost enum ResponseView {
    Written,
    Paused,
    Pending(u32),
    Data(Seq<u8>),
    Failed(std::io::Error),
    PortFailed(serialport::Error),
}

impl View for Response {
    type V = ResponseView;

    open spec fn view(&self) -> ResponseView {
        match *self {
            Response::Written => ResponseView::Written,
            Response::Paused => ResponseView::Paused,
            Response::Pending(waiting) => ResponseView::Pending(waiting),
            Response::Data(bytes) => ResponseView::Data(bytes@),
            Response::Failed(error) => ResponseView::Failed(error),
            Response::PortFailed(error) => ResponseView::PortFailed(error),
        }
    }
}

} // verus!
