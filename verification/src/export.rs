//! The snapshot laid out as a table row: one column each for the voltage,
//! the current and the energy of every channel, behind a leading column for
//! the time.

use crate::channel::ChannelView;
use crate::channel::CHANNEL_COUNT;
use crate::channel::POWENETICS_CHANNELS;
use crate::data::PoweneticsData;
use crate::message::decimal_string;
use crate::message::decimal_text;
use vstd::prelude::*;
use vstd::string::StringExecFns;

verus! {

/// `csv::Error`, carried through unread.
#[verifier::external_type_specification]
#[verifier::external_body]
pub struct ExCsvError(csv::Error);

/// What can go wrong while the table is written.
#[derive(Debug)]
pub enum CsvError {
    /// The file could not be looked at or opened.
    Io(std::io::Error),
    /// The table could not be written.
    Csv(csv::Error),
    /// The file is there already and holds something.
    CsvExists,
}

/// Decides whether a table may be written to a file: to one that is not
/// there yet, or to one that is empty.
pub fn check_destination(exists: bool, len: u64) -> (result: Result<(), CsvError>)
    ensures
        exists && len != 0 ==> result matches Err(CsvError::CsvExists),
        !(exists && len != 0) ==> result is Ok,
{
    if exists && len != 0 {
        Err(CsvError::CsvExists)
    } else {
        Ok(())
    }
}

/// How many columns a channel takes: voltage, current and energy.
pub const COLUMNS_PER_CHANNEL: usize = 3;

/// How many columns hold readings.
pub const READING_COLUMNS: usize = 39;

/// The heading of the leading column.
pub const TIMESTAMP_HEADING: &'static str = "Timestamp";

/// What follows a channel's label in the heading of one of its columns.
pub open spec fn unit_text(quantity: int) -> Seq<char> {
    if quantity == 0 {
        " Voltage (mV)"@
    } else if quantity == 1 {
        " Current (mA)"@
    } else {
        " Energy (nJ)"@
    }
}

/// The heading of a reading column: the label of its channel and the
/// quantity it holds.
pub open spec fn heading_text(column: int) -> Seq<char> {
    POWENETICS_CHANNELS[column / 3]@ + unit_text(column % 3)
}

/// What a reading column holds for a channel: the voltage, the current or
/// the energy, in decimal.
pub open spec fn reading_text(channel: ChannelView, quantity: int) -> Seq<char> {
    if quantity == 0 {
        decimal_text(channel.voltage as nat)
    } else if quantity == 1 {
        decimal_text(channel.current as nat)
    } else {
        decimal_text(channel.energy as nat)
    }
}

/// Joins a channel's label and what follows it in a heading.
fn heading(channel: usize, quantity: usize) -> (text: String)
    requires
        channel < CHANNEL_COUNT,
        quantity < COLUMNS_PER_CHANNEL,
    ensures
        text@ == heading_text(channel * 3 + quantity),
{
    let mut text = String::from_str(POWENETICS_CHANNELS[channel]);
    if quantity == 0 {
        text.append(" Voltage (mV)");
    } else if quantity == 1 {
        text.append(" Current (mA)");
    } else {
        text.append(" Energy (nJ)");
    }
    text
}

/// The headings of the table: that of the leading column, then those of the
/// reading columns, channel by channel.
pub fn header_fields() -> (fields: Vec<String>)
    ensures
        fields@.len() == 1 + READING_COLUMNS,
        fields@[0]@ == TIMESTAMP_HEADING@,
        forall|column: int|
            0 <= column < READING_COLUMNS ==> (#[trigger] fields@[1 + column])@ == heading_text(
                column,
            ),
{
    let mut fields: Vec<String> = Vec::new();
    fields.push(String::from_str(TIMESTAMP_HEADING));
    let mut channel: usize = 0;
    while channel < CHANNEL_COUNT
        invariant
            channel <= CHANNEL_COUNT,
            fields@.len() == 1 + 3 * channel,
            fields@[0]@ == TIMESTAMP_HEADING@,
            forall|column: int|
                0 <= column < 3 * channel ==> (#[trigger] fields@[1 + column])@ == heading_text(
                    column,
                ),
        decreases CHANNEL_COUNT - channel,
    {
        fields.push(heading(channel, 0));
        fields.push(heading(channel, 1));
        fields.push(heading(channel, 2));
        channel += 1;
    }
    fields
}

/// The reading columns of one row: voltage, current and energy of every
/// channel, in decimal.
pub fn reading_fields(data: &PoweneticsData) -> (fields: Vec<String>)
    ensures
        fields@.len() == READING_COLUMNS,
        forall|column: int|
            0 <= column < READING_COLUMNS ==> (#[trigger] fields@[column])@ == reading_text(
                data@.channels[column / 3],
                column % 3,
            ),
{
    let channels = data.channels();
    let mut fields: Vec<String> = Vec::new();
    let mut channel: usize = 0;
    while channel < CHANNEL_COUNT
        invariant
            channel <= CHANNEL_COUNT,
            fields@.len() == 3 * channel,
            forall|i: int| 0 <= i < CHANNEL_COUNT ==> (#[trigger] channels[i])@ == data@.channels[i],
            forall|column: int|
                0 <= column < 3 * channel ==> (#[trigger] fields@[column])@ == reading_text(
                    data@.channels[column / 3],
                    column % 3,
                ),
        decreases CHANNEL_COUNT - channel,
    {
        fields.push(decimal_string(channels[channel].voltage() as u64));
        fields.push(decimal_string(channels[channel].current() as u64));
        fields.push(decimal_string(channels[channel].energy()));
        channel += 1;
    }
    fields
}

} // verus!
