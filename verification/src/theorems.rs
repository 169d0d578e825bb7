//! What holds of the engine whatever the instrument, the clock and the
//! subscribers do.

use crate::channel::wrapped_energy;
use crate::channel::CHANNEL_COUNT;
use crate::channel::ENERGY_MODULUS;
use crate::data::DataView;
use crate::driver::round_verdict;
use crate::driver::DriverView;
use crate::driver::Stage;
use crate::driver::Turn;
use crate::driver::FIRST_SEQUENCE;
use crate::error::ErrorView;
use crate::error::PoweneticsError;
use crate::frame::current_of;
use crate::frame::has_marker;
use crate::frame::power_of;
use crate::frame::sequence_of;
use crate::frame::voltage_of;
use crate::frame::FRAME_LEN;
use crate::message::marker_text;
use crate::message::sequence_text;
use crate::time::Timestamp;
use crate::transport::RequestView;
use crate::transport::ResponseView;
use vstd::prelude::*;

verus! {

/// While no channel's last sample lies after `time`, the search for such a
/// channel finds none.
pub proof fn lemma_accepts(data: DataView, time: Timestamp, from: int)
    requires
        0 <= from <= CHANNEL_COUNT,
        forall|i: int| from <= i < CHANNEL_COUNT ==> !(#[trigger] data.channels[i]).predates(time),
    ensures
        data.first_predating(time, from) == CHANNEL_COUNT,
    decreases CHANNEL_COUNT - from,
{
    if from < CHANNEL_COUNT {
        lemma_accepts(data, time, from + 1);
    }
}

/// The search for a channel whose last sample lies after `time` ends at such
/// a channel or at the channel count, and passes over no such channel.
pub proof fn lemma_first_predating(data: DataView, time: Timestamp, from: int)
    requires
        0 <= from <= CHANNEL_COUNT,
    ensures
        from <= data.first_predating(time, from) <= CHANNEL_COUNT,
        data.first_predating(time, from) < CHANNEL_COUNT ==> data.channels[data.first_predating(
            time,
            from,
        )].predates(time),
        forall|i: int|
            from <= i < data.first_predating(time, from) ==> !(#[trigger] data.channels[i]).predates(
                time,
            ),
    decreases CHANNEL_COUNT - from,
{
    if from < CHANNEL_COUNT && !data.channels[from].predates(time) {
        lemma_first_predating(data, time, from + 1);
    }
}

/// The first frame that reaches a channel which has never been sampled
/// leaves the channel's energy as it is.
pub proof fn lemma_first_frame_adds_no_energy(
    data: DataView,
    frame: Seq<u8>,
    time: Timestamp,
    channel: int,
)
    requires
        data.well_formed(),
        0 <= channel < CHANNEL_COUNT,
        data.channels[channel].last_update is None,
    ensures
        data.recorded(frame, time).channels[channel].energy == data.channels[channel].energy,
{
    lemma_first_predating(data, time, 0);
}

/// Of two frames accepted one after the other, the second adds to every
/// channel's energy the power it reports for the channel times the whole
/// milliseconds that passed since the first, wrapping round at 64 bits.
/// While the sum fits into 64 bits, it is the plain sum. Where the two
/// frames report the same power for the channel, what is added is as much
/// as the power of the first frame times the milliseconds.
pub proof fn lemma_energy_between_frames(
    driver: DriverView,
    first: Seq<u8>,
    first_at: Timestamp,
    second: Seq<u8>,
    second_at: Timestamp,
    channel: int,
)
    requires
        driver.data.well_formed(),
        0 <= channel < CHANNEL_COUNT,
        driver.frame(first, first_at) is Accepted,
        has_marker(second),
        sequence_of(second) == driver.frame(first, first_at)->Accepted_state.sequence,
        first_at.nanos < second_at.nanos,
    ensures
        driver.frame(first, first_at)->Accepted_state.frame(second, second_at) is Accepted,
        ({
            let before = driver.frame(first, first_at)->Accepted_state.data.channels[channel];
            let after = driver.frame(first, first_at)->Accepted_state.frame(
                second,
                second_at,
            )->Accepted_state.data.channels[channel];
            let elapsed = second_at.spec_millis_since(first_at);
            let gain = power_of(second, channel) * elapsed;
            &&& after.energy == wrapped_energy(before.energy + gain)
            &&& before.energy + gain < ENERGY_MODULUS ==> after.energy == before.energy + gain
            &&& power_of(first, channel) == power_of(second, channel) ==> after.energy
                == wrapped_energy(before.energy + power_of(first, channel) * elapsed)
        }),
{
    let stamped = driver.data.stamped(first_at);
    lemma_first_predating(stamped, first_at, 0);
    let before = driver.frame(first, first_at)->Accepted_state;
    assert(before.data == stamped.recorded(first, first_at));
    assert forall|i: int| 0 <= i < CHANNEL_COUNT implies !(
    #[trigger] before.data.channels[i]).predates(second_at) by {
        assert(before.data.channels[i].last_update == Some(first_at));
    }
    lemma_accepts(before.data.stamped(second_at), second_at, 0);
    assert(before.data.channels[channel].last_update == Some(first_at));
    let power = power_of(second, channel);
    let elapsed = second_at.spec_millis_since(first_at);
    assert(0 <= power * elapsed) by (nonlinear_arith)
        requires
            0 <= power,
            0 <= elapsed,
    ;
}

/// An accepted frame reaches every channel: each holds the reading that the
/// frame reports for it and was last sampled when the frame was received,
/// which is also the time of the snapshot.
pub proof fn lemma_accepted_frame_reaches_every_channel(
    driver: DriverView,
    frame: Seq<u8>,
    now: Timestamp,
    channel: int,
)
    requires
        driver.data.well_formed(),
        driver.frame(frame, now) is Accepted,
        0 <= channel < CHANNEL_COUNT,
    ensures
        ({
            let before = driver.data.channels[channel];
            let after = driver.frame(frame, now)->Accepted_state.data.channels[channel];
            &&& after.id == channel
            &&& after.voltage == voltage_of(frame, channel)
            &&& after.current == current_of(frame, channel)
            &&& after.last_update == Some(now)
            &&& after.energy == before.stored(
                voltage_of(frame, channel),
                current_of(frame, channel),
            ).energy_at(now)
        }),
        driver.frame(frame, now)->Accepted_state.data.last_update == Some(now),
{
}

/// The channels keep their number and their places: whatever the engine is
/// told, the snapshot stays well formed.
pub proof fn lemma_channels_stay_in_place(
    driver: DriverView,
    response: ResponseView,
    now: Timestamp,
)
    requires
        driver.data.well_formed(),
    ensures
        match driver.receive(response, now) {
            Turn::Settled { state, reply } => state.data.well_formed(),
            Turn::Accepted { state } => state.data.well_formed(),
        },
{
}

/// The stream expects the sequence number one in its first frame.
pub proof fn lemma_sequence_starts_at_one(driver: DriverView, now: Timestamp)
    requires
        driver.stage == Stage::BeginWrite,
    ensures
        driver.receive(ResponseView::Written, now) == (Turn::Settled {
            state: driver.streaming(),
            reply: Ok(RequestView::Read(FRAME_LEN)),
        }),
        driver.streaming().sequence == FIRST_SEQUENCE,
        driver.streaming().started,
{
}

/// Every accepted frame moves the expected sequence number on by one,
/// wrapping round at 16 bits.
pub proof fn lemma_sequence_counts_frames(driver: DriverView, frame: Seq<u8>, now: Timestamp)
    requires
        driver.frame(frame, now) is Accepted,
    ensures
        sequence_of(frame) == driver.sequence,
        driver.frame(frame, now)->Accepted_state.sequence == (driver.sequence + 1) % 0x1_0000,
{
}

/// The frames of a stream carry the numbers of a counter that starts where
/// the engine expects it and goes up by one with every frame, wrapping round
/// at 16 bits; the engine then expects the number after the last.
pub proof fn lemma_sequence_follows_counter(
    driver: DriverView,
    frames: Seq<Seq<u8>>,
    times: Seq<Timestamp>,
)
    requires
        frames.len() == times.len(),
        driver.streamed(frames, times) is Some,
    ensures
        forall|i: int|
            0 <= i < frames.len() ==> sequence_of(#[trigger] frames[i]) == (driver.sequence + i)
                % 0x1_0000,
        driver.streamed(frames, times)->Some_0.sequence == (driver.sequence + frames.len())
            % 0x1_0000,
    decreases frames.len(),
{
    if frames.len() > 0 {
        let earlier = frames.drop_last();
        lemma_sequence_follows_counter(driver, earlier, times.drop_last());
        let before = driver.streamed(earlier, times.drop_last())->Some_0;
        lemma_sequence_counts_frames(before, frames.last(), times.last());
        assert forall|i: int| 0 <= i < frames.len() implies sequence_of(#[trigger] frames[i]) == (
        driver.sequence + i) % 0x1_0000 by {
            if i < earlier.len() {
                assert(frames[i] == earlier[i]);
            }
        }
    }
}

/// A frame whose sequence number is not the expected one ends the stream
/// with a protocol error. No request comes with the error, and whatever is
/// handed to the engine afterwards only fails again: nothing more is read.
pub proof fn lemma_sequence_gap_ends_stream(
    driver: DriverView,
    frame: Seq<u8>,
    now: Timestamp,
    later: ResponseView,
    later_at: Timestamp,
)
    requires
        driver.stage == Stage::Streaming,
        frame.len() == FRAME_LEN,
        has_marker(frame),
        sequence_of(frame) != driver.sequence,
    ensures
        driver.receive(ResponseView::Data(frame), now) == (Turn::Settled {
            state: DriverView { data: driver.data.stamped(now), stage: Stage::Idle, ..driver },
            reply: Err(
                ErrorView::Protocol { message: sequence_text(driver.sequence, sequence_of(frame)) },
            ),
        }),
        driver.receive(ResponseView::Data(frame), now)->Settled_state.receive(later, later_at)
            is Settled,
        driver.receive(ResponseView::Data(frame), now)->Settled_state.receive(
            later,
            later_at,
        )->Settled_reply is Err,
{
}

/// A frame that does not open with the marker ends the stream with a
/// protocol error, whatever else it holds.
pub proof fn lemma_missing_marker_ends_stream(driver: DriverView, frame: Seq<u8>, now: Timestamp)
    requires
        driver.stage == Stage::Streaming,
        frame.len() == FRAME_LEN,
        !has_marker(frame),
    ensures
        driver.receive(ResponseView::Data(frame), now) == (Turn::Settled {
            state: DriverView { data: driver.data.stamped(now), stage: Stage::Idle, ..driver },
            reply: Err(ErrorView::Protocol { message: marker_text(frame[0], frame[1]) }),
        }),
{
}

/// Whether one of the answers is a wish to stop.
pub open spec fn wants_stop(votes: Seq<Result<bool, anyhow::Error>>) -> bool {
    exists|i: int| 0 <= i < votes.len() && #[trigger] votes[i] == Ok::<bool, anyhow::Error>(true)
}

/// The verdict of a round in which nobody fails is to stop exactly when one
/// of the subscribers wants to stop, whichever it is. The verdict of a round
/// that ends with a failure is that failure, as a subscriber's error.
pub proof fn lemma_round_verdict(votes: Seq<Result<bool, anyhow::Error>>)
    requires
        forall|i: int| 0 <= i < votes.len() - 1 ==> (#[trigger] votes[i]) is Ok,
    ensures
        (forall|i: int| 0 <= i < votes.len() ==> (#[trigger] votes[i]) is Ok) ==> round_verdict(
            votes,
        ) == Ok::<bool, PoweneticsError>(wants_stop(votes)),
        votes.len() > 0 && votes.last() is Err ==> round_verdict(votes) == Err::<
            bool,
            PoweneticsError,
        >(PoweneticsError::Subscriber(votes.last()->Err_0)),
    decreases votes.len(),
{
    if votes.len() > 0 {
        let earlier = votes.drop_last();
        assert forall|i: int| 0 <= i < earlier.len() implies (#[trigger] earlier[i]) is Ok by {
            assert(earlier[i] == votes[i]);
        }
        lemma_round_verdict(earlier);
        assert(round_verdict(earlier) == Ok::<bool, PoweneticsError>(wants_stop(earlier)));
        if votes.last() is Ok {
            if wants_stop(earlier) {
                let i = choose|i: int|
                    0 <= i < earlier.len() && #[trigger] earlier[i] == Ok::<bool, anyhow::Error>(
                        true,
                    );
                assert(votes[i] == Ok::<bool, anyhow::Error>(true));
            }
            if wants_stop(votes) && !wants_stop(earlier) {
                let i = choose|i: int|
                    0 <= i < votes.len() && #[trigger] votes[i] == Ok::<bool, anyhow::Error>(true);
                if i < earlier.len() {
                    assert(earlier[i] == Ok::<bool, anyhow::Error>(true));
                }
            }
            if votes.last() == Ok::<bool, anyhow::Error>(true) {
                assert(votes[votes.len() - 1] == Ok::<bool, anyhow::Error>(true));
            }
        }
    }
}

/// Once measurement has begun, calibration, the reset of the calibration and
/// the start of measurement are all refused in the same way: the engine
/// stays as it is and asks for nothing on the transport.
pub proof fn lemma_started_refuses_configuration(driver: DriverView, channel: u8, reference: u32)
    requires
        driver.started,
    ensures
        driver.calibrate(channel, reference) == (Turn::Settled {
            state: driver,
            reply: Err(ErrorView::MeasurementAlreadyStarted),
        }),
        driver.reset_calibration() == (Turn::Settled {
            state: driver,
            reply: Err(ErrorView::MeasurementAlreadyStarted),
        }),
        driver.start_measurement() == (Turn::Settled {
            state: driver,
            reply: Err(ErrorView::MeasurementAlreadyStarted),
        }),
{
}

/// Measurement does not start while nobody has subscribed: the engine stays
/// as it is and asks for nothing on the transport.
pub proof fn lemma_start_needs_subscribers(driver: DriverView)
    requires
        !driver.started,
        driver.subscribers == 0,
    ensures
        driver.start_measurement() == (Turn::Settled {
            state: driver,
            reply: Err(ErrorView::NoSubscribers),
        }),
{
}

/// Measurement begins once and for all: nothing that is asked of the engine
/// and nothing that it is told takes it back to where it has not started.
pub proof fn lemma_started_for_good(
    driver: DriverView,
    channel: u8,
    reference: u32,
    response: ResponseView,
    now: Timestamp,
)
    requires
        driver.started,
    ensures
        driver.calibrate(channel, reference)->Settled_state.started,
        driver.reset_calibration()->Settled_state.started,
        driver.start_measurement()->Settled_state.started,
        match driver.receive(response, now) {
            Turn::Settled { state, reply } => state.started,
            Turn::Accepted { state } => state.started,
        },
{
}

} // verus!
