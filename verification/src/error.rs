//! The failures the engine reports.

use vstd::prelude::*;
use vstd::string::StringExecFns;

verus! {

/// `std::io::Error`, carried through unread.
#[verifier::external_type_specification]
#[verifier::external_body]
pub struct ExIoError(std::io::Error);

/// `serialport::Error`, carried through unread.
#[verifier::external_type_specification]
#[verifier::external_body]
pub struct ExSerialPortError(serialport::Error);

/// `anyhow::Error`, carried through unread.
#[verifier::external_type_specification]
#[verifier::external_body]
pub struct ExAnyhowError(anyhow::Error);

/// Everything that can go wrong while talking to the instrument.
#[derive(Debug)]
pub enum PoweneticsError {
    /// The serial port reported a failure of its own.
    SerialPort(serialport::Error),
    /// Reading from or writing to the transport failed.
    Io(std::io::Error),
    /// The clock could not be read, or ran backwards between two frames.
    SystemTime,
    /// A subscriber failed while handling a reading.
    Subscriber(anyhow::Error),
    /// The measurement configuration cannot change once measurement has begun.
    MeasurementAlreadyStarted,
    /// No channel has the requested id or name.
    InvalidChannel,
    /// The channel to calibrate carries no power.
    NoPowerOnChannel,
    /// Measurement was started without anyone to receive the readings.
    NoSubscribers,
    /// The byte stream broke the wire protocol; the device has to be
    /// unplugged and reconnected.
    Protocol { message: String },
}

/// A [`PoweneticsError`] as a mathematical value: the message of a protocol
/// error is a sequence of characters.
pub ghost enum ErrorView {
    SerialPort(serialport::Error),
    Io(std::io::Error),
    SystemTime,
    Subscriber(anyhow::Error),
    MeasurementAlreadyStarted,
    InvalidChannel,
    NoPowerOnChannel,
    NoSubscribers,
    Protocol { message: Seq<char> },
}

impl ErrorView {
    /// How the failure is put to the user. A subscriber's failure is put in
    /// the subscriber's own words, which are not known here: for it this is
    /// the empty text.
    pub open spec fn description(self) -> Seq<char> {
        match self {
            ErrorView::SerialPort(_) => "Serial port error"@,
            ErrorView::Io(_) => "I/O error"@,
            ErrorView::SystemTime => "System time error"@,
            ErrorView::Subscriber(_) => Seq::empty(),
            ErrorView::MeasurementAlreadyStarted => {
                "Unable to change measurement configuration after measurement has already started"@
            },
            ErrorView::InvalidChannel => "Invalid channel requested"@,
            ErrorView::NoPowerOnChannel => "No power on channel, cannot calibrate"@,
            ErrorView::NoSubscribers => "No listeners specified"@,
            ErrorView::Protocol { message } => {
                "Powenetics protocol error, unplug and reconnect device. Reason: "@ + message
            },
        }
    }
}

/// Renders a subscriber's error with the `Display` of `anyhow::Error`.
/// Nothing is claimed of the text.
#[verifier::external_body]
fn subscriber_text(error: &anyhow::Error) -> (text: String) {
    error.to_string()
}

impl PoweneticsError {
    /// Puts the failure to the user. A subscriber's failure is put in the
    /// subscriber's own words.
    pub fn description(&self) -> (text: String)
        ensures
            !(self@ is Subscriber) ==> text@ == self@.description(),
    {
        match self {
            PoweneticsError::SerialPort(_) => String::from_str("Serial port error"),
            PoweneticsError::Io(_) => String::from_str("I/O error"),
            PoweneticsError::SystemTime => String::from_str("System time error"),
            PoweneticsError::Subscriber(error) => subscriber_text(error),
            PoweneticsError::MeasurementAlreadyStarted => String::from_str(
                "Unable to change measurement configuration after measurement has already started",
            ),
            PoweneticsError::InvalidChannel => String::from_str("Invalid channel requested"),
            PoweneticsError::NoPowerOnChannel => String::from_str(
                "No power on channel, cannot calibrate",
            ),
            PoweneticsError::NoSubscribers => String::from_str("No listeners specified"),
            PoweneticsError::Protocol { message } => {
                let mut text = String::from_str(
                    "Powenetics protocol error, unplug and reconnect device. Reason: ",
                );
                text.append(message.as_str());
                text
            },
        }
    }
}

impl View for PoweneticsError {
    type V = ErrorView;

    open spec fn view(&self) -> ErrorView {
        match *self {
            PoweneticsError::SerialPort(e) => ErrorView::SerialPort(e),
            PoweneticsError::Io(e) => ErrorView::Io(e),
            PoweneticsError::SystemTime => ErrorView::SystemTime,
            PoweneticsError::Subscriber(e) => ErrorView::Subscriber(e),
            PoweneticsError::MeasurementAlreadyStarted => ErrorView::MeasurementAlreadyStarted,
            PoweneticsError::InvalidChannel => ErrorView::InvalidChannel,
            PoweneticsError::NoPowerOnChannel => ErrorView::NoPowerOnChannel,
            PoweneticsError::NoSubscribers => ErrorView::NoSubscribers,
            PoweneticsError::Protocol { message } => ErrorView::Protocol { message: message@ },
        }
    }
}

} // verus!
