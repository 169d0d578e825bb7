//! One measurement channel: its latest reading and the energy it has
//! accumulated.

use crate::error::PoweneticsError;
use crate::time::Timestamp;
use vstd::arithmetic::div_mod::lemma_add_mod_noop_right;
use vstd::arithmetic::div_mod::lemma_mul_mod_noop_right;
use vstd::prelude::*;

verus! {

/// How many channels the instrument measures.
pub const CHANNEL_COUNT: usize = 13;

/// One more than the largest value a `u64` holds.
pub const ENERGY_MODULUS: u128 = 0x1_0000_0000_0000_0000;

/// The largest current the wire format can carry: 24 bits.
pub const MAX_CURRENT: u32 = 0xFF_FFFF;

/// The labels of the channels, in the order of their ids.
pub const POWENETICS_CHANNELS: [&'static str; 13] = [
    "ATX 3.3V",
    "ATX 5V Standby",
    "ATX 12V",
    "ATX 5V",
    "EPS 12V #1",
    "ATX12VO 12V Standby",
    "EPS 12V #3",
    "EPS 12V #2",
    "PCIe 12V #3",
    "PCIe 12V #2",
    "PCIe Slot 3.3V",
    "PCIe Slot 12V",
    "PCIe 12V #1",
];

/// No two channels share a label.
pub proof fn lemma_labels_differ()
    ensures
        forall|i: int, j: int|
            0 <= i < j < CHANNEL_COUNT ==> (#[trigger] POWENETICS_CHANNELS[i])@
                != (#[trigger] POWENETICS_CHANNELS[j])@,
{
    reveal_strlit("ATX 3.3V");
    reveal_strlit("ATX 5V Standby");
    reveal_strlit("ATX 12V");
    reveal_strlit("ATX 5V");
    reveal_strlit("EPS 12V #1");
    reveal_strlit("ATX12VO 12V Standby");
    reveal_strlit("EPS 12V #3");
    reveal_strlit("EPS 12V #2");
    reveal_strlit("PCIe 12V #3");
    reveal_strlit("PCIe 12V #2");
    reveal_strlit("PCIe Slot 3.3V");
    reveal_strlit("PCIe Slot 12V");
    reveal_strlit("PCIe 12V #1");
    assert(POWENETICS_CHANNELS[0]@.len() == 8);
    assert(POWENETICS_CHANNELS[1]@.len() == 14 && POWENETICS_CHANNELS[1]@[0] == 'A');
    assert(POWENETICS_CHANNELS[2]@.len() == 7);
    assert(POWENETICS_CHANNELS[3]@.len() == 6);
    assert(POWENETICS_CHANNELS[4]@.len() == 10 && POWENETICS_CHANNELS[4]@[9] == '1');
    assert(POWENETICS_CHANNELS[5]@.len() == 19);
    assert(POWENETICS_CHANNELS[6]@.len() == 10 && POWENETICS_CHANNELS[6]@[9] == '3');
    assert(POWENETICS_CHANNELS[7]@.len() == 10 && POWENETICS_CHANNELS[7]@[9] == '2');
    assert(POWENETICS_CHANNELS[8]@.len() == 11 && POWENETICS_CHANNELS[8]@[10] == '3');
    assert(POWENETICS_CHANNELS[9]@.len() == 11 && POWENETICS_CHANNELS[9]@[10] == '2');
    assert(POWENETICS_CHANNELS[10]@.len() == 14 && POWENETICS_CHANNELS[10]@[0] == 'P');
    assert(POWENETICS_CHANNELS[11]@.len() == 13);
    assert(POWENETICS_CHANNELS[12]@.len() == 11 && POWENETICS_CHANNELS[12]@[10] == '1');
}

/// An amount of energy as the accumulator holds it: wrapped round at 64 bits.
pub open spec fn wrapped_energy(total: int) -> u64 {
    (total % (ENERGY_MODULUS as int)) as u64
}

/// A channel as a mathematical value.
pub ghost struct ChannelView {
    pub id: u8,
    pub voltage: u16,
    pub current: u32,
    pub energy: u64,
    pub last_update: Option<Timestamp>,
}

impl ChannelView {
    /// Instantaneous power: millivolts times milliamps.
    pub open spec fn power(self) -> int {
        self.voltage * self.current
    }

    /// Whether a sample taken at `time` would lie before the previous one.
    pub open spec fn predates(self, time: Timestamp) -> bool {
        self.last_update matches Some(last) && time.nanos < last.nanos
    }

    /// The channel after a new reading has been stored.
    pub open spec fn stored(self, voltage: u16, current: u32) -> ChannelView {
        ChannelView { voltage, current, ..self }
    }

    /// The energy after integrating the present power up to `time`. The first
    /// sample only sets the baseline; later ones add power times the whole
    /// milliseconds elapsed, wrapping round at 64 bits.
    pub open spec fn energy_at(self, time: Timestamp) -> u64 {
        match self.last_update {
            None => self.energy,
            Some(last) => wrapped_energy(self.energy + self.power() * time.spec_millis_since(last)),
        }
    }

    /// The channel after integrating the present power up to `time`.
    pub open spec fn integrated(self, time: Timestamp) -> ChannelView {
        ChannelView { energy: self.energy_at(time), last_update: Some(time), ..self }
    }

    /// The channel after a reading taken at `time` has been stored and
    /// integrated.
    pub open spec fn sampled(self, voltage: u16, current: u32, time: Timestamp) -> ChannelView {
        self.stored(voltage, current).integrated(time)
    }
}

/// Reducing the elapsed time modulo 2^64 before multiplying does not change
/// the energy modulo 2^64.
proof fn lemma_wrapped_gain(energy: int, power: int, elapsed: int)
    ensures
        (energy + power * (elapsed % (ENERGY_MODULUS as int))) % (ENERGY_MODULUS as int) == (energy
            + power * elapsed) % (ENERGY_MODULUS as int),
{
    let m = ENERGY_MODULUS as int;
    lemma_mul_mod_noop_right(power, elapsed, m);
    lemma_add_mod_noop_right(energy, power * (elapsed % m), m);
    lemma_add_mod_noop_right(energy, power * elapsed, m);
}

/// One physical measurement channel.
#[derive(Clone, Copy, Debug)]
pub struct Channel {
    id: u8,
    voltage: u16,
    current: u32,
    energy: u64,
    last_update: Option<Timestamp>,
}

impl View for Channel {
    type V = ChannelView;

    closed spec fn view(&self) -> ChannelView {
        ChannelView {
            id: self.id,
            voltage: self.voltage,
            current: self.current,
            energy: self.energy,
            last_update: self.last_update,
        }
    }
}

impl Channel {
    /// The id is that of one of the channels.
    #[verifier::type_invariant]
    spec fn well_formed(self) -> bool {
        self.id < CHANNEL_COUNT
    }

    /// A channel that has not been sampled yet.
    pub(crate) fn fresh(id: u8) -> (channel: Channel)
        requires
            id < CHANNEL_COUNT,
        ensures
            channel@ == (ChannelView {
                id,
                voltage: 0,
                current: 0,
                energy: 0,
                last_update: None,
            }),
    {
        Channel { id, voltage: 0, current: 0, energy: 0, last_update: None }
    }

    /// The channel's label.
    pub fn name(&self) -> (name: &'static str)
        ensures
            self@.id < CHANNEL_COUNT,
            name@ == POWENETICS_CHANNELS[self@.id as int]@,
    {
        proof {
            use_type_invariant(self);
        }
        POWENETICS_CHANNELS[self.id as usize]
    }

    /// The channel's index, below [`CHANNEL_COUNT`].
    pub fn id(&self) -> (id: u8)
        ensures
            id == self@.id,
            id < CHANNEL_COUNT,
    {
        proof {
            use_type_invariant(self);
        }
        self.id
    }

    /// The latest voltage, in millivolts.
    pub fn voltage(&self) -> (voltage: u16)
        ensures
            voltage == self@.voltage,
    {
        self.voltage
    }

    /// The latest current, in milliamps.
    pub fn current(&self) -> (current: u32)
        ensures
            current == self@.current,
    {
        self.current
    }

    /// The latest power: millivolts times milliamps.
    pub fn power(&self) -> (power: u64)
        ensures
            power == self@.power(),
            power < 0x1_0000_0000_0000,
    {
        assert(self.voltage * self.current <= 0xFFFF * 0xFFFF_FFFF) by (nonlinear_arith)
            requires
                self.voltage <= 0xFFFF,
                self.current <= 0xFFFF_FFFF,
        ;
        (self.voltage as u64) * (self.current as u64)
    }

    /// The energy accumulated so far, in millivolt-milliamp-milliseconds.
    pub fn energy(&self) -> (energy: u64)
        ensures
            energy == self@.energy,
    {
        self.energy
    }

    /// When the channel was last sampled, if it ever was.
    pub fn last_update(&self) -> (time: Option<Timestamp>)
        ensures
            time == self@.last_update,
    {
        self.last_update
    }

    /// Stores a new reading without integrating it.
    pub(crate) fn store(&mut self, voltage: u16, current: u32)
        ensures
            final(self)@ == old(self)@.stored(voltage, current),
    {
        proof {
            use_type_invariant(&*self);
        }
        self.voltage = voltage;
        self.current = current;
    }

    /// Integrates the present power over the time since the last sample and
    /// makes `time` the new baseline. A `time` before the last sample is a
    /// clock failure and leaves the channel as it was.
    pub fn update_energy(&mut self, time: Timestamp) -> (result: Result<(), PoweneticsError>)
        ensures
            old(self)@.predates(time) ==> result == Err::<(), PoweneticsError>(
                PoweneticsError::SystemTime,
            ) && *final(self) == *old(self),
            !old(self)@.predates(time) ==> result is Ok && final(self)@ == old(self)@.integrated(
                time,
            ),
    {
        proof {
            use_type_invariant(&*self);
        }
        if let Some(last) = self.last_update {
            match time.millis_since(last) {
                None => {
                    return Err(PoweneticsError::SystemTime);
                },
                Some(elapsed) => {
                    let power: u128 = self.power() as u128;
                    let wrapped: u128 = elapsed % ENERGY_MODULUS;
                    assert(power * wrapped < 0x1_0000_0000_0000 * 0x1_0000_0000_0000_0000)
                        by (nonlinear_arith)
                        requires
                            power < 0x1_0000_0000_0000,
                            wrapped < 0x1_0000_0000_0000_0000,
                    ;
                    let total: u128 = self.energy as u128 + power * wrapped;
                    proof {
                        lemma_wrapped_gain(self.energy as int, power as int, elapsed as int);
                    }
                    self.energy = (total % ENERGY_MODULUS) as u64;
                },
            }
        }
        self.last_update = Some(time);
        Ok(())
    }

    /// Sets the accumulated energy back to zero.
    pub fn reset_energy(&mut self)
        ensures
            final(self)@ == (ChannelView { energy: 0, ..old(self)@ }),
    {
        proof {
            use_type_invariant(&*self);
        }
        self.energy = 0;
    }
}

} // verus!
