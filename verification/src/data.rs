//! The snapshot handed to subscribers: every channel's latest reading and
//! the time of the most recent frame.

use crate::channel::lemma_labels_differ;
use crate::channel::Channel;
use crate::channel::ChannelView;
use crate::channel::CHANNEL_COUNT;
use crate::channel::POWENETICS_CHANNELS;
use crate::error::PoweneticsError;
use crate::frame::current_of;
use crate::frame::read_current;
use crate::frame::read_voltage;
use crate::frame::voltage_of;
use crate::frame::FRAME_LEN;
use crate::time::Timestamp;
use vstd::prelude::*;
use vstd::string::StringSliceAdditionalSpecFns;
use vstd::utf8::encode_utf8_decode_utf8;

verus! {

/// A snapshot as a mathematical value.
pub ghost struct DataView {
    pub channels: Seq<ChannelView>,
    pub last_update: Option<Timestamp>,
}

impl DataView {
    /// There is one channel per id, each at the index of its id.
    pub open spec fn well_formed(self) -> bool {
        &&& self.channels.len() == CHANNEL_COUNT
        &&& forall|i: int| 0 <= i < CHANNEL_COUNT ==> (#[trigger] self.channels[i]).id == i
    }

    /// The snapshot before the first frame: nothing measured, nothing
    /// accumulated, no time noted.
    pub open spec fn fresh() -> DataView {
        DataView {
            channels: Seq::new(
                CHANNEL_COUNT as nat,
                |i: int|
                    ChannelView {
                        id: i as u8,
                        voltage: 0,
                        current: 0,
                        energy: 0,
                        last_update: None,
                    },
            ),
            last_update: None,
        }
    }

    /// The snapshot with the time of the most recent frame set.
    pub open spec fn stamped(self, time: Timestamp) -> DataView {
        DataView { last_update: Some(time), ..self }
    }

    /// The first channel at or after `from` whose last sample lies after
    /// `time`; the channel count if there is none.
    pub open spec fn first_predating(self, time: Timestamp, from: int) -> int
        decreases CHANNEL_COUNT - from,
    {
        if from >= CHANNEL_COUNT {
            CHANNEL_COUNT as int
        } else if self.channels[from].predates(time) {
            from
        } else {
            self.first_predating(time, from + 1)
        }
    }

    /// Whether the readings of a frame received at `time` can be integrated
    /// on every channel.
    pub open spec fn accepts(self, time: Timestamp) -> bool {
        self.first_predating(time, 0) == CHANNEL_COUNT
    }

    /// The snapshot after the channels below `upto` have taken their readings
    /// from the frame and integrated them, and channel `upto`, if there is
    /// one, has stored its reading without integrating it.
    pub open spec fn sampled_upto(self, frame: Seq<u8>, time: Timestamp, upto: int) -> DataView {
        DataView {
            channels: Seq::new(
                CHANNEL_COUNT as nat,
                |i: int|
                    if i < upto {
                        self.channels[i].sampled(voltage_of(frame, i), current_of(frame, i), time)
                    } else if i == upto {
                        self.channels[i].stored(voltage_of(frame, i), current_of(frame, i))
                    } else {
                        self.channels[i]
                    },
            ),
            ..self
        }
    }

    /// The snapshot after every channel has taken its reading from the frame
    /// and integrated it.
    pub open spec fn sampled(self, frame: Seq<u8>, time: Timestamp) -> DataView {
        self.sampled_upto(frame, time, CHANNEL_COUNT as int)
    }

    /// The snapshot after the readings of a frame received at `time` have
    /// been taken in channel order, stopping at the first channel whose last
    /// sample lies after `time`.
    pub open spec fn recorded(self, frame: Seq<u8>, time: Timestamp) -> DataView {
        self.sampled_upto(frame, time, self.first_predating(time, 0))
    }

    /// The index of the first channel labelled `name`, at or after `from`;
    /// the channel count if there is none.
    pub open spec fn index_of_name(name: Seq<char>, from: int) -> int
        decreases CHANNEL_COUNT - from,
    {
        if from >= CHANNEL_COUNT {
            CHANNEL_COUNT as int
        } else if POWENETICS_CHANNELS[from]@ == name {
            from
        } else {
            Self::index_of_name(name, from + 1)
        }
    }
}

/// The search for a label ends at the first channel that carries it, or at
/// the channel count when none does.
pub proof fn lemma_index_of_name(name: Seq<char>, from: int)
    requires
        0 <= from <= CHANNEL_COUNT,
    ensures
        from <= DataView::index_of_name(name, from) <= CHANNEL_COUNT,
        DataView::index_of_name(name, from) < CHANNEL_COUNT
            ==> POWENETICS_CHANNELS[DataView::index_of_name(name, from)]@ == name,
        forall|i: int|
            from <= i < DataView::index_of_name(name, from) ==> (
            #[trigger] POWENETICS_CHANNELS[i])@ != name,
    decreases CHANNEL_COUNT - from,
{
    if from < CHANNEL_COUNT && POWENETICS_CHANNELS[from]@ != name {
        lemma_index_of_name(name, from + 1);
    }
}

/// A label is unknown exactly when no channel carries it.
pub proof fn lemma_unknown_name(name: Seq<char>)
    ensures
        DataView::index_of_name(name, 0) >= CHANNEL_COUNT <==> forall|i: int|
            0 <= i < CHANNEL_COUNT ==> (#[trigger] POWENETICS_CHANNELS[i])@ != name,
{
    lemma_index_of_name(name, 0);
}

/// Looking a channel up by its own label finds that channel.
pub proof fn lemma_own_name_finds_channel(id: int)
    requires
        0 <= id < CHANNEL_COUNT,
    ensures
        DataView::index_of_name(POWENETICS_CHANNELS[id]@, 0) == id,
{
    lemma_labels_differ();
    lemma_index_of_name(POWENETICS_CHANNELS[id]@, 0);
}

/// All channels and the time of the most recent frame.
#[derive(Debug)]
pub struct PoweneticsData {
    channels: [Channel; 13],
    last_update: Option<Timestamp>,
}

impl View for PoweneticsData {
    type V = DataView;

    closed spec fn view(&self) -> DataView {
        DataView {
            channels: Seq::new(CHANNEL_COUNT as nat, |i: int| self.channels[i]@),
            last_update: self.last_update,
        }
    }
}

/// Tells whether two strings hold the same text.
fn same_text(a: &str, b: &str) -> (same: bool)
    ensures
        same == (a@ == b@),
{
    let x = a.as_bytes();
    let y = b.as_bytes();
    proof {
        encode_utf8_decode_utf8(a@);
        encode_utf8_decode_utf8(b@);
    }
    if x.len() != y.len() {
        return false;
    }
    let mut i: usize = 0;
    while i < x.len()
        invariant
            i <= x.len(),
            x.len() == y.len(),
            x@ == a.spec_bytes(),
            y@ == b.spec_bytes(),
            forall|j: int| 0 <= j < i ==> x@[j] == y@[j],
        decreases x.len() - i,
    {
        if x[i] != y[i] {
            return false;
        }
        i += 1;
    }
    assert(x@ =~= y@);
    true
}

impl PoweneticsData {
    /// The channels stand in the order of their ids.
    #[verifier::type_invariant]
    pub closed spec fn ordered(self) -> bool {
        forall|i: int| 0 <= i < CHANNEL_COUNT ==> (#[trigger] self.channels[i])@.id == i
    }

    /// A snapshot whose channels stand in the order of their ids is well
    /// formed.
    pub proof fn lemma_well_formed(self)
        requires
            self.ordered(),
        ensures
            self@.well_formed(),
    {
    }

    /// The snapshot before the first frame.
    pub fn new() -> (data: PoweneticsData)
        ensures
            data@ == DataView::fresh(),
            data@.well_formed(),
    {
        let data = PoweneticsData {
            channels: [
                Channel::fresh(0),
                Channel::fresh(1),
                Channel::fresh(2),
                Channel::fresh(3),
                Channel::fresh(4),
                Channel::fresh(5),
                Channel::fresh(6),
                Channel::fresh(7),
                Channel::fresh(8),
                Channel::fresh(9),
                Channel::fresh(10),
                Channel::fresh(11),
                Channel::fresh(12),
            ],
            last_update: None,
        };
        assert(data@.channels =~= DataView::fresh().channels);
        data
    }

    /// Looks a channel up by its id. Fails with
    /// [`PoweneticsError::InvalidChannel`] exactly when no channel has the id.
    pub fn channel_by_id(&self, id: usize) -> (result: Result<&Channel, PoweneticsError>)
        ensures
            self@.well_formed(),
            id < CHANNEL_COUNT ==> (result matches Ok(channel) && channel@
                == self@.channels[id as int]),
            id >= CHANNEL_COUNT ==> result matches Err(PoweneticsError::InvalidChannel),
    {
        proof {
            use_type_invariant(self);
        }
        if id >= CHANNEL_COUNT {
            return Err(PoweneticsError::InvalidChannel);
        }
        Ok(&self.channels[id])
    }

    /// Looks a channel up by its label. Fails with
    /// [`PoweneticsError::InvalidChannel`] exactly when no channel carries
    /// the label.
    pub fn channel_by_name(&self, name: &str) -> (result: Result<&Channel, PoweneticsError>)
        ensures
            self@.well_formed(),
            DataView::index_of_name(name@, 0) < CHANNEL_COUNT ==> (result matches Ok(channel)
                && channel@ == self@.channels[DataView::index_of_name(name@, 0)]),
            DataView::index_of_name(name@, 0) >= CHANNEL_COUNT ==> result matches Err(
                PoweneticsError::InvalidChannel,
            ),
    {
        proof {
            use_type_invariant(self);
        }
        let mut i: usize = 0;
        while i < CHANNEL_COUNT
            invariant
                i <= CHANNEL_COUNT,
                self@.well_formed(),
                DataView::index_of_name(name@, 0) == DataView::index_of_name(name@, i as int),
            decreases CHANNEL_COUNT - i,
        {
            if same_text(POWENETICS_CHANNELS[i], name) {
                return Ok(&self.channels[i]);
            }
            i += 1;
        }
        Err(PoweneticsError::InvalidChannel)
    }

    /// All channels, in the order of their ids.
    pub fn channels(&self) -> (channels: &[Channel; 13])
        ensures
            self@.well_formed(),
            forall|i: int| 0 <= i < CHANNEL_COUNT ==> (#[trigger] channels[i])@ == self@.channels[i],
    {
        proof {
            use_type_invariant(self);
        }
        &self.channels
    }

    /// When the most recent frame was received, if there has been one.
    pub fn last_update(&self) -> (time: Option<Timestamp>)
        ensures
            time == self@.last_update,
    {
        self.last_update
    }

    /// Notes the time at which a frame was received.
    pub(crate) fn stamp(&mut self, time: Timestamp)
        ensures
            final(self)@ == old(self)@.stamped(time),
    {
        proof {
            use_type_invariant(&*self);
        }
        self.last_update = Some(time);
        assert(self@.channels =~= old(self)@.channels);
    }

    /// Takes the readings of a frame received at `time`, channel by channel:
    /// each channel stores its reading and integrates it. Stops with
    /// [`PoweneticsError::SystemTime`] at the first channel whose last sample
    /// lies after `time`.
    pub(crate) fn record(&mut self, frame: &[u8], time: Timestamp) -> (result: Result<
        (),
        PoweneticsError,
    >)
        requires
            frame@.len() == FRAME_LEN,
        ensures
            final(self)@ == old(self)@.recorded(frame@, time),
            old(self)@.accepts(time) ==> result is Ok,
            !old(self)@.accepts(time) ==> result == Err::<(), PoweneticsError>(
                PoweneticsError::SystemTime,
            ),
    {
        proof {
            use_type_invariant(&*self);
        }
        let mut i: usize = 0;
        while i < CHANNEL_COUNT
            invariant
                i <= CHANNEL_COUNT,
                frame@.len() == FRAME_LEN,
                self.ordered(),
                self.last_update == old(self).last_update,
                old(self)@.first_predating(time, 0) == old(self)@.first_predating(time, i as int),
                forall|j: int|
                    0 <= j < i ==> (#[trigger] self.channels[j])@ == old(self)@.channels[j].sampled(
                        voltage_of(frame@, j),
                        current_of(frame@, j),
                        time,
                    ),
                forall|j: int| i <= j < CHANNEL_COUNT ==> self.channels[j] == old(self).channels[j],
            decreases CHANNEL_COUNT - i,
        {
            let voltage = read_voltage(frame, i);
            let current = read_current(frame, i);
            let mut channel = self.channels[i];
            channel.store(voltage, current);
            let integrated = channel.update_energy(time);
            self.channels[i] = channel;
            if integrated.is_err() {
                assert(self@.channels =~= old(self)@.recorded(frame@, time).channels);
                return Err(PoweneticsError::SystemTime);
            }
            i += 1;
        }
        assert(self@.channels =~= old(self)@.recorded(frame@, time).channels);
        Ok(())
    }
}

} // verus!
