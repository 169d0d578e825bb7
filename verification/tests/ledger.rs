use powenetics_v2::new;
use powenetics_v2::Channel;
use powenetics_v2::Powenetics;
use powenetics_v2::PoweneticsData;
use powenetics_v2::PoweneticsError;
use powenetics_v2::PoweneticsSubscriber;
use powenetics_v2::Request;
use powenetics_v2::Response;
use powenetics_v2::Timestamp;
use powenetics_v2::CHANNEL_COUNT;
use powenetics_v2::POWENETICS_CHANNELS;

struct Silent;

impl PoweneticsSubscriber for Silent {
    fn update(&mut self, _p: &PoweneticsData) -> Result<bool, anyhow::Error> {
        Ok(false)
    }
}

fn frame_with(sequence: u16, readings: &[(u16, u32)]) -> Vec<u8> {
    let mut frame = vec![0xCA, 0xAC];
    frame.extend_from_slice(&sequence.to_be_bytes());
    for index in 0..13 {
        let (voltage, current) = if index < readings.len() { readings[index] } else { (0, 0) };
        frame.extend_from_slice(&voltage.to_be_bytes());
        frame.extend_from_slice(&current.to_be_bytes()[1..]);
    }
    frame
}

fn at_millis(millis: u64) -> Timestamp {
    Timestamp::from_millis(millis)
}

fn streaming() -> Powenetics {
    let mut driver = new();
    driver.subscribe(Box::new(Silent));
    assert!(matches!(driver.start_measurement(), Ok(Request::Write(_))));
    assert!(matches!(driver.advance_at(Response::Written, at_millis(0)), Ok(Request::Pause(1))));
    assert!(matches!(driver.advance_at(Response::Paused, at_millis(0)), Ok(Request::Pending)));
    assert!(matches!(driver.advance_at(Response::Pending(0), at_millis(0)), Ok(Request::Write(_))));
    assert!(matches!(driver.advance_at(Response::Written, at_millis(0)), Ok(Request::Read(69))));
    driver
}

fn feed(driver: &mut Powenetics, sequence: u16, readings: &[(u16, u32)], millis: u64) {
    let reply = driver.advance_at(Response::Data(frame_with(sequence, readings)), at_millis(millis));
    assert!(matches!(reply, Ok(Request::Read(69))));
}

fn channel(driver: &Powenetics, id: usize) -> Channel {
    *driver.data().channel_by_id(id).unwrap()
}

#[test]
fn fresh_channels_are_zeroed_and_labelled() {
    let driver = new();
    let data = driver.data();
    assert_eq!(data.last_update(), None);
    assert_eq!(data.channels().len(), 13);
    for (index, channel) in data.channels().iter().enumerate() {
        assert_eq!(channel.id() as usize, index);
        assert_eq!(channel.name(), POWENETICS_CHANNELS[index]);
        assert_eq!(channel.voltage(), 0);
        assert_eq!(channel.current(), 0);
        assert_eq!(channel.power(), 0);
        assert_eq!(channel.energy(), 0);
        assert_eq!(channel.last_update(), None);
    }
}

#[test]
fn channel_table_has_thirteen_fixed_labels() {
    assert_eq!(CHANNEL_COUNT, 13);
    assert_eq!(POWENETICS_CHANNELS.len(), 13);
    assert_eq!(POWENETICS_CHANNELS[0], "ATX 3.3V");
    assert_eq!(POWENETICS_CHANNELS[1], "ATX 5V Standby");
    assert_eq!(POWENETICS_CHANNELS[5], "ATX12VO 12V Standby");
    assert_eq!(POWENETICS_CHANNELS[12], "PCIe 12V #1");
}

#[test]
fn channel_by_id_finds_every_channel() {
    let data = PoweneticsData::new();
    for id in 0..13 {
        let channel = data.channel_by_id(id).unwrap();
        assert_eq!(channel.id() as usize, id);
    }
}

#[test]
fn channel_by_id_rejects_ids_out_of_range() {
    let data = PoweneticsData::new();
    assert!(matches!(data.channel_by_id(13), Err(PoweneticsError::InvalidChannel)));
    assert!(matches!(data.channel_by_id(14), Err(PoweneticsError::InvalidChannel)));
    assert!(matches!(data.channel_by_id(usize::MAX), Err(PoweneticsError::InvalidChannel)));
}

#[test]
fn channel_by_name_finds_every_channel() {
    let data = PoweneticsData::new();
    for (index, name) in POWENETICS_CHANNELS.iter().enumerate() {
        let channel = data.channel_by_name(name).unwrap();
        assert_eq!(channel.id() as usize, index);
        assert_eq!(channel.name(), *name);
    }
    assert_eq!(data.channel_by_name("EPS 12V #2").unwrap().id(), 7);
    assert_eq!(data.channel_by_name("EPS 12V #3").unwrap().id(), 6);
}

#[test]
fn channel_by_name_rejects_unknown_names() {
    let data = PoweneticsData::new();
    for name in ["", "ATX", "atx 12v", "ATX 12V ", "PCIe 12V #4", "ATX 3.3V\u{0}"] {
        assert!(matches!(data.channel_by_name(name), Err(PoweneticsError::InvalidChannel)));
    }
}

#[test]
fn failed_lookups_leave_the_snapshot_alone() {
    let mut driver = streaming();
    feed(&mut driver, 1, &[(3300, 1000)], 10);
    assert!(driver.data().channel_by_id(99).is_err());
    assert!(driver.data().channel_by_name("nothing").is_err());
    assert_eq!(channel(&driver, 0).voltage(), 3300);
    assert_eq!(channel(&driver, 0).current(), 1000);
    assert_eq!(driver.data().last_update(), Some(at_millis(10)));
}

#[test]
fn first_frame_sets_the_baseline_without_energy() {
    let mut driver = streaming();
    feed(&mut driver, 1, &[(12000, 2500), (5000, 100)], 1000);
    let first = channel(&driver, 0);
    assert_eq!(first.voltage(), 12000);
    assert_eq!(first.current(), 2500);
    assert_eq!(first.power(), 30_000_000);
    assert_eq!(first.energy(), 0);
    assert_eq!(first.last_update(), Some(at_millis(1000)));
    assert_eq!(channel(&driver, 1).energy(), 0);
    assert_eq!(driver.data().last_update(), Some(at_millis(1000)));
}

#[test]
fn second_frame_adds_power_times_elapsed_millis() {
    let mut driver = streaming();
    feed(&mut driver, 1, &[(12000, 2500), (5000, 100)], 1000);
    feed(&mut driver, 2, &[(12100, 2000), (5000, 100)], 1250);
    assert_eq!(channel(&driver, 0).energy(), 12100 * 2000 * 250);
    assert_eq!(channel(&driver, 0).energy(), 6_050_000_000);
    assert_eq!(channel(&driver, 1).energy(), 125_000_000);
    assert_eq!(channel(&driver, 2).energy(), 0);
    feed(&mut driver, 3, &[(12000, 1000), (5000, 100)], 1260);
    assert_eq!(channel(&driver, 0).energy(), 6_050_000_000 + 120_000_000);
    assert_eq!(channel(&driver, 1).energy(), 130_000_000);
}

#[test]
fn equal_readings_add_the_first_frames_power() {
    let mut driver = streaming();
    feed(&mut driver, 1, &[(3300, 1500)], 500);
    let before = channel(&driver, 0).energy();
    feed(&mut driver, 2, &[(3300, 1500)], 900);
    assert_eq!(channel(&driver, 0).energy(), before + 3300 * 1500 * 400);
}

#[test]
fn elapsed_time_counts_whole_milliseconds_only() {
    let mut driver = streaming();
    let first = Timestamp { nanos: 1_000_000 };
    let second = Timestamp { nanos: 3_999_999 };
    let one = driver.advance_at(Response::Data(frame_with(1, &[(10, 10)])), first);
    assert!(matches!(one, Ok(Request::Read(69))));
    let two = driver.advance_at(Response::Data(frame_with(2, &[(10, 10)])), second);
    assert!(matches!(two, Ok(Request::Read(69))));
    assert_eq!(channel(&driver, 0).energy(), 200);
    assert_eq!(second.millis_since(first), Some(2));
    assert_eq!(first.millis_since(second), None);
    assert_eq!(first.millis_since(first), Some(0));
}

#[test]
fn frames_at_the_same_instant_add_nothing() {
    let mut driver = streaming();
    feed(&mut driver, 1, &[(12000, 2500)], 40);
    feed(&mut driver, 2, &[(12000, 2500)], 40);
    assert_eq!(channel(&driver, 0).energy(), 0);
}

#[test]
fn energy_wraps_round_at_sixty_four_bits() {
    let mut driver = streaming();
    feed(&mut driver, 1, &[(0xFFFF, 0xFF_FFFF)], 1);
    feed(&mut driver, 2, &[(0xFFFF, 0xFF_FFFF)], 1 + (1 << 40));
    assert_eq!(channel(&driver, 0).power(), 1_099_494_785_025);
    let expected = ((0xFFFFu128 * 0xFF_FFFFu128 * (1u128 << 40)) % (1u128 << 64)) as u64;
    assert_eq!(channel(&driver, 0).energy(), expected);
    assert_eq!(expected, 18_374_687_579_183_251_456);
}

#[test]
fn update_energy_integrates_an_owned_channel() {
    let mut driver = streaming();
    feed(&mut driver, 1, &[(1000, 2000)], 100);
    let mut copy = channel(&driver, 0);
    assert!(copy.update_energy(at_millis(103)).is_ok());
    assert_eq!(copy.energy(), 6_000_000);
    assert_eq!(copy.last_update(), Some(at_millis(103)));
    assert!(copy.update_energy(at_millis(104)).is_ok());
    assert_eq!(copy.energy(), 8_000_000);
    assert_eq!(channel(&driver, 0).energy(), 0);
}

#[test]
fn update_energy_on_a_fresh_channel_only_sets_the_time() {
    let driver = new();
    let mut copy = channel(&driver, 4);
    assert!(copy.update_energy(at_millis(77)).is_ok());
    assert_eq!(copy.energy(), 0);
    assert_eq!(copy.last_update(), Some(at_millis(77)));
}

#[test]
fn update_energy_rejects_a_clock_that_ran_backwards() {
    let mut driver = streaming();
    feed(&mut driver, 1, &[(1000, 2000)], 100);
    feed(&mut driver, 2, &[(1000, 2000)], 110);
    let mut copy = channel(&driver, 0);
    let result = copy.update_energy(at_millis(109));
    assert!(matches!(result, Err(PoweneticsError::SystemTime)));
    assert_eq!(copy.energy(), 20_000_000);
    assert_eq!(copy.last_update(), Some(at_millis(110)));
}

#[test]
fn reset_energy_clears_only_the_energy() {
    let mut driver = streaming();
    feed(&mut driver, 1, &[(1000, 2000)], 100);
    feed(&mut driver, 2, &[(1000, 2000)], 110);
    let mut copy = channel(&driver, 0);
    assert_eq!(copy.energy(), 20_000_000);
    copy.reset_energy();
    assert_eq!(copy.energy(), 0);
    assert_eq!(copy.voltage(), 1000);
    assert_eq!(copy.current(), 2000);
    assert_eq!(copy.id(), 0);
    assert_eq!(copy.last_update(), Some(at_millis(110)));
    assert!(copy.update_energy(at_millis(111)).is_ok());
    assert_eq!(copy.energy(), 2_000_000);
}

#[test]
fn a_sample_at_the_epoch_counts_like_any_other() {
    let mut driver = streaming();
    feed(&mut driver, 1, &[(1000, 2000)], 0);
    assert_eq!(channel(&driver, 0).last_update(), Some(Timestamp::epoch()));
    assert_eq!(channel(&driver, 0).energy(), 0);
    feed(&mut driver, 2, &[(1000, 2000)], 50);
    assert_eq!(channel(&driver, 0).energy(), 100_000_000);
    feed(&mut driver, 3, &[(1000, 2000)], 60);
    assert_eq!(channel(&driver, 0).energy(), 120_000_000);
}

#[test]
fn timestamps_count_nanoseconds_from_the_epoch() {
    assert_eq!(Timestamp::epoch().nanos, 0);
    assert_eq!(Timestamp::from_millis(0), Timestamp::epoch());
    assert_eq!(Timestamp::from_millis(1).nanos, 1_000_000);
    assert_eq!(Timestamp::from_millis(u64::MAX).nanos, 18_446_744_073_709_551_615_000_000);
}
