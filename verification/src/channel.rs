//! Which pins and frequencies the converter takes, and the table that
//! records the channels that have been initialized.

use crate::fatal::Fatal;
use crate::hal::AdcContext;
use vstd::prelude::*;

verus! {

/// The lowest sampling frequency of single-channel mode, in Hz.
pub const MIN_FREQUENCY_HZ: u32 = 500;

/// The highest sampling frequency of single-channel mode, in Hz.
pub const MAX_FREQUENCY_HZ: u32 = 16000;

/// The number of channels that the table has a bit for.
pub const TABLE_BITS: i32 = 32;

/// Whether the pin can be routed to the converter.
pub open spec fn valid_pin(pin: i32) -> bool {
    pin == 4 || pin == 5 || pin == 6 || (9 <= pin <= 15)
}

/// Whether single-channel mode can sample at this frequency.
pub open spec fn valid_frequency(frequency_hz: u32) -> bool {
    MIN_FREQUENCY_HZ <= frequency_hz <= MAX_FREQUENCY_HZ
}

/// Whether the table has a bit for the channel.
pub open spec fn valid_channel(channel: i32) -> bool {
    0 <= channel < TABLE_BITS
}

/// The bit of a channel in the table.
pub open spec fn channel_bit(channel: i32) -> u32
    recommends
        valid_channel(channel),
{
    1u32 << (channel as u32)
}

/// Whether the table records the channel as initialized.
pub open spec fn table_has(table: u32, channel: i32) -> bool
    recommends
        valid_channel(channel),
{
    table & channel_bit(channel) != 0
}

/// The table with the channel recorded as initialized.
pub open spec fn table_with(table: u32, channel: i32) -> u32
    recommends
        valid_channel(channel),
{
    table | channel_bit(channel)
}

/// What can be seen of the sampler on a channel.
#[derive(Clone, Copy, Debug, PartialEq, Eq, Structural)]
pub enum SamplerState {
    /// The channel was never initialized.
    Uninitialized,
    /// The channel is configured and the DMA engine is filling the buffer.
    SamplingInProgress,
    /// The channel is configured and a filled buffer is waiting.
    SampleReady,
}

/// The state that a DMA context shows for a channel.
///
/// Which of the two configured states it is depends on the DMA engine
/// alone: the sampler observes it and never sets it.
pub open spec fn state_of(context: AdcContext, channel: i32) -> SamplerState
    recommends
        valid_channel(channel),
{
    if !table_has(context.chan_init_table, channel) {
        SamplerState::Uninitialized
    } else if !context.data_ready {
        SamplerState::SamplingInProgress
    } else {
        SamplerState::SampleReady
    }
}

/// What [`observe`] returns.
pub open spec fn observed(context: AdcContext, channel: i32) -> Result<SamplerState, Fatal> {
    if valid_channel(channel) {
        Ok(state_of(context, channel))
    } else {
        Err(Fatal::ChannelOutOfRange)
    }
}

/// What [`mark_channel`] returns.
pub open spec fn marked(table: u32, channel: i32) -> Result<u32, Fatal> {
    if valid_channel(channel) {
        Ok(table_with(table, channel))
    } else {
        Err(Fatal::ChannelOutOfRange)
    }
}

/// Tests a pin against the list of pins that the converter can be routed to.
pub fn is_valid_pin(pin: i32) -> (b: bool)
    ensures
        b == valid_pin(pin),
{
    pin == 4 || pin == 5 || pin == 6 || pin == 9 || pin == 10 || pin == 11 || pin == 12 || pin
        == 13 || pin == 14 || pin == 15
}

/// Tests a frequency against the range of single-channel mode.
pub fn is_valid_frequency(frequency_hz: u32) -> (b: bool)
    ensures
        b == valid_frequency(frequency_hz),
{
    frequency_hz >= MIN_FREQUENCY_HZ && frequency_hz <= MAX_FREQUENCY_HZ
}

/// Records a channel as initialized. A channel that the table has no bit
/// for is fatal.
pub fn mark_channel(table: u32, channel: i32) -> (r: Result<u32, Fatal>)
    ensures
        r == marked(table, channel),
{
    if channel < 0 || channel >= TABLE_BITS {
        return Err(Fatal::ChannelOutOfRange);
    }
    let shift: u32 = channel as u32;
    Ok(table | (1u32 << shift))
}

/// Reads the state of the sampler on a channel off the DMA context. A
/// channel that the table has no bit for is fatal.
pub fn observe(context: &AdcContext, channel: i32) -> (r: Result<SamplerState, Fatal>)
    ensures
        r == observed(*context, channel),
{
    if channel < 0 || channel >= TABLE_BITS {
        return Err(Fatal::ChannelOutOfRange);
    }
    let shift: u32 = channel as u32;
    if context.chan_init_table & (1u32 << shift) == 0 {
        Ok(SamplerState::Uninitialized)
    } else if !context.data_ready {
        Ok(SamplerState::SamplingInProgress)
    } else {
        Ok(SamplerState::SampleReady)
    }
}

/// A channel that was recorded is in the table, and recording it has not
/// touched the record of any other channel.
pub proof fn lemma_marked_is_recorded(table: u32, channel: i32, other: i32)
    requires
        valid_channel(channel),
        valid_channel(other),
    ensures
        table_has(table_with(table, channel), channel),
        other != channel ==> table_has(table_with(table, channel), other) == table_has(
            table,
            other,
        ),
{
    let c = channel as u32;
    let o = other as u32;
    assert((table | (1u32 << c)) & (1u32 << c) != 0) by (bit_vector)
        requires
            c < 32,
    ;
    assert(o != c ==> (((table | (1u32 << c)) & (1u32 << o) != 0) == (table & (1u32 << o)
        != 0))) by (bit_vector)
        requires
            c < 32,
            o < 32,
    ;
}

/// Recording a channel twice leaves the table as recording it once does.
pub proof fn lemma_mark_idempotent(table: u32, channel: i32)
    requires
        valid_channel(channel),
    ensures
        table_with(table_with(table, channel), channel) == table_with(table, channel),
{
    let c = channel as u32;
    assert(((table | (1u32 << c)) | (1u32 << c)) == (table | (1u32 << c))) by (bit_vector);
}

/// An empty table records no channel.
pub proof fn lemma_empty_table(channel: i32)
    ensures
        !table_has(0, channel),
{
    let bit = channel_bit(channel);
    assert(0u32 & bit == 0) by (bit_vector);
}

} // verus!
