use powenetics_v2::export::check_destination;
use powenetics_v2::export::header_fields;
use powenetics_v2::export::reading_fields;
use powenetics_v2::message::decimal_string;
use powenetics_v2::new;
use powenetics_v2::CsvError;
use powenetics_v2::PoweneticsData;
use powenetics_v2::PoweneticsSubscriber;
use powenetics_v2::Response;
use powenetics_v2::Timestamp;
use powenetics_v2::POWENETICS_CHANNELS;

struct Mute;

impl PoweneticsSubscriber for Mute {
    fn update(&mut self, _p: &PoweneticsData) -> Result<bool, anyhow::Error> {
        Ok(false)
    }
}

#[test]
fn header_names_time_and_three_columns_per_channel() {
    let header = header_fields();
    assert_eq!(header.len(), 40);
    assert_eq!(header[0], "Timestamp");
    assert_eq!(header[1], "ATX 3.3V Voltage (mV)");
    assert_eq!(header[2], "ATX 3.3V Current (mA)");
    assert_eq!(header[3], "ATX 3.3V Energy (nJ)");
    assert_eq!(header[4], "ATX 5V Standby Voltage (mV)");
    assert_eq!(header[39], "PCIe 12V #1 Energy (nJ)");
    for (index, name) in POWENETICS_CHANNELS.iter().enumerate() {
        assert_eq!(header[1 + 3 * index], format!("{} Voltage (mV)", name));
        assert_eq!(header[2 + 3 * index], format!("{} Current (mA)", name));
        assert_eq!(header[3 + 3 * index], format!("{} Energy (nJ)", name));
    }
}

#[test]
fn a_fresh_snapshot_gives_a_row_of_zeros() {
    let fields = reading_fields(&PoweneticsData::new());
    assert_eq!(fields.len(), 39);
    assert!(fields.iter().all(|field| field == "0"));
}

#[test]
fn a_row_holds_voltage_current_and_energy_of_every_channel() {
    let mut driver = new();
    driver.subscribe(Box::new(Mute));
    driver.start_measurement().unwrap();
    driver.advance_at(Response::Written, Timestamp::epoch()).unwrap();
    driver.advance_at(Response::Paused, Timestamp::epoch()).unwrap();
    driver.advance_at(Response::Pending(0), Timestamp::epoch()).unwrap();
    driver.advance_at(Response::Written, Timestamp::epoch()).unwrap();
    for (sequence, millis) in [(1u16, 1_000u64), (2, 1_100)] {
        let mut frame = vec![0xCA, 0xAC];
        frame.extend_from_slice(&sequence.to_be_bytes());
        for index in 0..13u32 {
            frame.extend_from_slice(&(12_000 + index as u16).to_be_bytes());
            frame.extend_from_slice(&(70_000 * (index + 1)).to_be_bytes()[1..]);
        }
        driver.advance_at(Response::Data(frame), Timestamp::from_millis(millis)).unwrap();
    }
    let fields = reading_fields(driver.data());
    assert_eq!(fields.len(), 39);
    assert_eq!(fields[0], "12000");
    assert_eq!(fields[1], "70000");
    assert_eq!(fields[2], "84000000000");
    for index in 0..13u64 {
        let at = 3 * index as usize;
        assert_eq!(fields[at], (12_000 + index).to_string());
        assert_eq!(fields[at + 1], (70_000 * (index + 1)).to_string());
        assert_eq!(fields[at + 2], ((12_000 + index) * 70_000 * (index + 1) * 100).to_string());
    }
}

#[test]
fn decimal_string_matches_the_standard_formatting() {
    for n in [0u64, 1, 9, 10, 11, 99, 100, 101, 65_535, 16_777_215, 1_000_000_007, u64::MAX] {
        assert_eq!(decimal_string(n), n.to_string());
    }
    assert_eq!(decimal_string(u64::MAX), "18446744073709551615");
}

#[test]
fn a_table_goes_to_a_new_or_an_empty_file_only() {
    assert!(check_destination(false, 0).is_ok());
    assert!(check_destination(true, 0).is_ok());
    assert!(check_destination(false, 10).is_ok());
    assert!(matches!(check_destination(true, 1), Err(CsvError::CsvExists)));
    assert!(matches!(check_destination(true, u64::MAX), Err(CsvError::CsvExists)));
}
