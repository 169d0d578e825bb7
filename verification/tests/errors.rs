use powenetics_v2::PoweneticsError;

#[test]
fn plain_failures_are_described_in_fixed_words() {
    assert_eq!(PoweneticsError::SystemTime.description(), "System time error");
    assert_eq!(
        PoweneticsError::MeasurementAlreadyStarted.description(),
        "Unable to change measurement configuration after measurement has already started"
    );
    assert_eq!(PoweneticsError::InvalidChannel.description(), "Invalid channel requested");
    assert_eq!(
        PoweneticsError::NoPowerOnChannel.description(),
        "No power on channel, cannot calibrate"
    );
    assert_eq!(PoweneticsError::NoSubscribers.description(), "No listeners specified");
}

#[test]
fn transport_failures_are_described_without_their_cause() {
    let io = std::io::Error::new(std::io::ErrorKind::BrokenPipe, "pipe");
    assert_eq!(PoweneticsError::Io(io).description(), "I/O error");
    let port = serialport::Error::new(serialport::ErrorKind::NoDevice, "gone");
    assert_eq!(PoweneticsError::SerialPort(port).description(), "Serial port error");
}

#[test]
fn protocol_errors_ask_for_a_reconnect_and_give_the_reason() {
    let error = PoweneticsError::Protocol { message: String::from("expected sequence 3, received 4") };
    assert_eq!(
        error.description(),
        "Powenetics protocol error, unplug and reconnect device. Reason: expected sequence 3, received 4"
    );
    let empty = PoweneticsError::Protocol { message: String::new() };
    assert_eq!(
        empty.description(),
        "Powenetics protocol error, unplug and reconnect device. Reason: "
    );
}

#[test]
fn subscriber_failures_speak_for_themselves() {
    let error = PoweneticsError::Subscriber(anyhow::Error::msg("disk full"));
    assert_eq!(error.description(), "disk full");
}
