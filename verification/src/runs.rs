//! What holds of whole runs of the sampler's machines: of an
//! initialization and of a reading, from the start to the end, on the
//! replies of the hardware abstraction layer.

use crate::average::{lemma_mean_without_wrap, mean, SCALE, WRAP_FREE_SAMPLES};
use crate::channel::{
    state_of, table_has, table_with, valid_channel, valid_frequency, valid_pin, SamplerState,
};
use crate::channel::{lemma_mark_idempotent, lemma_marked_is_recorded};
use crate::fatal::Fatal;
use crate::hal::{AdcContext, HalCall, HalReply};
use crate::machine::{calls_from, outcome, replay, run_from};
use crate::sampler::{
    init_call, init_start, initialize, read_average, read_call, read_start, InitStage, InitState,
    Initializer, ReadStage, ReadState, Reader, Reading, ADC_GAIN1, ADC_GAIN2,
    SINGLE_CHANNEL_MODE,
};
use vstd::prelude::*;

verus! {

/// Where an initialization stands after a sequence of replies.
pub open spec fn init_run(
    pin: i32,
    frequency_hz: u32,
    sample_count: u32,
    replies: Seq<HalReply>,
) -> Result<InitState, Fatal> {
    match init_start(pin, frequency_hz, sample_count) {
        Ok(s) => run_from::<Initializer>(s, replies, 0),
        Err(f) => Err(f),
    }
}

/// Where a reading stands after a sequence of replies.
pub open spec fn read_run(pin: i32, sample_count: u32, replies: Seq<HalReply>) -> Result<
    ReadState,
    Fatal,
> {
    run_from::<Reader>(read_start(pin, sample_count), replies, 0)
}

/// Runs an initialization on the replies of a recorded session, up to
/// the first that is fatal.
pub fn initialize_on(
    channel_pin: i32,
    sample_frequency_hz: u32,
    sample_count: u32,
    replies: &[HalReply],
) -> (r: Result<Initializer, Fatal>)
    ensures
        outcome(r) == init_run(channel_pin, sample_frequency_hz, sample_count, replies@),
{
    match initialize(channel_pin, sample_frequency_hz, sample_count) {
        Ok(machine) => replay(machine, replies),
        Err(f) => Err(f),
    }
}

/// Runs a reading on the replies of a recorded session, up to the first
/// that is fatal.
pub fn read_average_on(channel_pin: i32, sample_count: u32, replies: &[HalReply]) -> (r: Result<
    Reader,
    Fatal,
>)
    ensures
        outcome(r) == read_run(channel_pin, sample_count, replies@),
{
    replay(read_average(channel_pin, sample_count), replies)
}

/// The calls that an initialization makes on a sequence of replies.
pub open spec fn init_calls(
    pin: i32,
    frequency_hz: u32,
    sample_count: u32,
    replies: Seq<HalReply>,
) -> Seq<HalCall> {
    match init_start(pin, frequency_hz, sample_count) {
        Ok(s) => calls_from::<Initializer>(s, replies, 0),
        Err(f) => Seq::<HalCall>::empty(),
    }
}

/// The calls that a reading makes on a sequence of replies.
pub open spec fn read_calls(pin: i32, sample_count: u32, replies: Seq<HalReply>) -> Seq<HalCall> {
    calls_from::<Reader>(read_start(pin, sample_count), replies, 0)
}

/// The calls of an initialization on which every step succeeds, in order:
/// the conversion clock, the pin, the gain stages, the DMA ring buffer, the
/// binding of the pin, the two lookups, the record of the channel, and the
/// start of continuous conversion.
pub open spec fn init_plan(
    pin: i32,
    frequency_hz: u32,
    sample_count: u32,
    channel: i32,
    context: AdcContext,
) -> Seq<HalCall> {
    seq![
        HalCall::AdcFreqInit { mode: SINGLE_CHANNEL_MODE, frequency_hz },
        HalCall::AdcInit { mode: SINGLE_CHANNEL_MODE, pin },
        HalCall::AdcSetGain { gain1: ADC_GAIN1, gain2: ADC_GAIN2 },
        HalCall::AdcDmaInit { mode: SINGLE_CHANNEL_MODE, sample_count },
        HalCall::AdcGpioInit { pin },
        HalCall::AdcChannelOfPin { pin },
        HalCall::DmaFindContext,
        HalCall::StoreChannelTable { table: table_with(context.chan_init_table, channel) },
        HalCall::AdcStart,
    ]
}

/// The replies of a hardware abstraction layer on which every step of an
/// initialization succeeds: the pin is routed to `channel`, and the DMA
/// context is found and holds `context`.
pub open spec fn init_replies(channel: i32, context: AdcContext) -> Seq<HalReply> {
    seq![
        HalReply::Status(0),
        HalReply::Status(0),
        HalReply::Status(0),
        HalReply::Status(0),
        HalReply::Status(0),
        HalReply::Channel(channel),
        HalReply::Context(Some(context)),
        HalReply::Done,
        HalReply::Status(0),
    ]
}

/// The state in which an initialization leaves the sampler where every
/// step succeeds.
pub open spec fn configured(
    pin: i32,
    frequency_hz: u32,
    sample_count: u32,
    channel: i32,
    context: AdcContext,
) -> InitState {
    InitState {
        pin,
        frequency_hz,
        sample_count,
        stage: InitStage::Configured,
        channel,
        table: table_with(context.chan_init_table, channel),
    }
}

/// For every pin and frequency that the converter takes, an initialization
/// on which every step succeeds ends with the channel configured, and
/// with the channel recorded in the table that it stored.
pub proof fn lemma_initialize_succeeds(
    pin: i32,
    frequency_hz: u32,
    sample_count: u32,
    channel: i32,
    context: AdcContext,
)
    requires
        valid_pin(pin),
        valid_frequency(frequency_hz),
        valid_channel(channel),
    ensures
        init_run(pin, frequency_hz, sample_count, init_replies(channel, context)) == Ok::<
            InitState,
            Fatal,
        >(configured(pin, frequency_hz, sample_count, channel, context)),
        init_call(configured(pin, frequency_hz, sample_count, channel, context)) is None,
        table_has(configured(pin, frequency_hz, sample_count, channel, context).table, channel),
        init_calls(pin, frequency_hz, sample_count, init_replies(channel, context)) == init_plan(
            pin,
            frequency_hz,
            sample_count,
            channel,
            context,
        ),
{
    reveal_with_fuel(run_from, 10);
    reveal_with_fuel(calls_from, 10);
    lemma_marked_is_recorded(context.chan_init_table, channel, channel);
    assert(init_calls(pin, frequency_hz, sample_count, init_replies(channel, context))
        =~= init_plan(pin, frequency_hz, sample_count, channel, context));
}

/// An initialization is all or nothing: once the hardware abstraction
/// layer has answered nine calls or more, the channel is configured or
/// the initialization has failed. Nine replies are what it takes, and a
/// tenth finds no call to answer.
pub proof fn lemma_initialize_all_or_nothing(
    pin: i32,
    frequency_hz: u32,
    sample_count: u32,
    replies: Seq<HalReply>,
)
    requires
        replies.len() >= 9,
    ensures
        init_run(pin, frequency_hz, sample_count, replies) matches Ok(end) ==> replies.len() == 9
            && end.stage == InitStage::Configured,
{
    reveal_with_fuel(run_from, 11);
}

/// For a pin or a frequency that the converter does not take, an
/// initialization fails before its first call, whatever the replies
/// would have been.
pub proof fn lemma_initialize_fails_fast(
    pin: i32,
    frequency_hz: u32,
    sample_count: u32,
    replies: Seq<HalReply>,
)
    requires
        !valid_pin(pin) || !valid_frequency(frequency_hz),
    ensures
        init_start(pin, frequency_hz, sample_count) is Err,
        init_run(pin, frequency_hz, sample_count, replies) == init_start(
            pin,
            frequency_hz,
            sample_count,
        ),
        init_calls(pin, frequency_hz, sample_count, replies) == Seq::<HalCall>::empty(),
{
}

/// Initializing twice with the same arguments leaves the sampler as
/// initializing once does: the second run finds the table that the first
/// one stored, makes the same calls, and ends in the same state.
pub proof fn lemma_initialize_twice(
    pin: i32,
    frequency_hz: u32,
    sample_count: u32,
    channel: i32,
    context: AdcContext,
)
    requires
        valid_pin(pin),
        valid_frequency(frequency_hz),
        valid_channel(channel),
    ensures
        ({
            let once = configured(pin, frequency_hz, sample_count, channel, context);
            let found = AdcContext { chan_init_table: once.table, ..context };
            &&& init_run(pin, frequency_hz, sample_count, init_replies(channel, found)) == Ok::<
                InitState,
                Fatal,
            >(once)
            &&& init_calls(pin, frequency_hz, sample_count, init_replies(channel, found))
                == init_calls(pin, frequency_hz, sample_count, init_replies(channel, context))
        }),
{
    let once = configured(pin, frequency_hz, sample_count, channel, context);
    let found = AdcContext { chan_init_table: once.table, ..context };
    lemma_initialize_succeeds(pin, frequency_hz, sample_count, channel, context);
    lemma_initialize_succeeds(pin, frequency_hz, sample_count, channel, found);
    lemma_mark_idempotent(context.chan_init_table, channel);
}

/// A reading of a channel that the table does not record always ends in
/// a failure, whether or not a buffer is waiting and whatever is replied
/// after the context: it never reports a value. The failure tells that
/// the channel was never initialized, unless the table has no bit for the
/// channel at all.
pub proof fn lemma_read_before_initialize(
    pin: i32,
    sample_count: u32,
    channel: i32,
    context: AdcContext,
    rest: Seq<HalReply>,
)
    requires
        !table_has(context.chan_init_table, channel) || !valid_channel(channel),
    ensures
        read_run(
            pin,
            sample_count,
            seq![HalReply::Channel(channel), HalReply::Context(Some(context))] + rest,
        ) == Err::<ReadState, Fatal>(
            if valid_channel(channel) {
                Fatal::ChannelNotConfigured
            } else {
                Fatal::ChannelOutOfRange
            },
        ),
        read_calls(
            pin,
            sample_count,
            seq![HalReply::Channel(channel), HalReply::Context(Some(context))] + rest,
        ) == seq![HalCall::AdcChannelOfPin { pin }, HalCall::DmaFindContext],
{
    let replies = seq![HalReply::Channel(channel), HalReply::Context(Some(context))] + rest;
    reveal_with_fuel(run_from, 3);
    reveal_with_fuel(calls_from, 3);
    assert(read_calls(pin, sample_count, replies) =~= seq![
        HalCall::AdcChannelOfPin { pin },
        HalCall::DmaFindContext,
    ]);
}

/// While the DMA engine has handed over no buffer, a reading of a
/// configured channel ends at once with the report that nothing is ready:
/// it asks for no copy and computes no mean.
pub proof fn lemma_read_not_ready(pin: i32, sample_count: u32, channel: i32, context: AdcContext)
    requires
        valid_channel(channel),
        table_has(context.chan_init_table, channel),
        !context.data_ready,
    ensures
        ({
            let end = ReadState {
                pin,
                sample_count,
                stage: ReadStage::Finished,
                channel,
                reading: Some(Reading::NotReady),
            };
            &&& read_run(
                pin,
                sample_count,
                seq![HalReply::Channel(channel), HalReply::Context(Some(context))],
            ) == Ok::<ReadState, Fatal>(end)
            &&& read_call(end) is None
            &&& read_calls(
                pin,
                sample_count,
                seq![HalReply::Channel(channel), HalReply::Context(Some(context))],
            ) == seq![HalCall::AdcChannelOfPin { pin }, HalCall::DmaFindContext]
        }),
{
    reveal_with_fuel(run_from, 3);
    reveal_with_fuel(calls_from, 3);
    assert(read_calls(
        pin,
        sample_count,
        seq![HalReply::Channel(channel), HalReply::Context(Some(context))],
    ) =~= seq![HalCall::AdcChannelOfPin { pin }, HalCall::DmaFindContext]);
}

/// Once the DMA engine has handed over a buffer, a reading of a configured
/// channel reports the scaled mean of the copy. Where the buffer is short
/// enough for the sum not to wrap, the mean lies in `0..SCALE`.
pub proof fn lemma_read_ready(
    pin: i32,
    sample_count: u32,
    channel: i32,
    context: AdcContext,
    samples: Vec<u32>,
)
    requires
        valid_channel(channel),
        table_has(context.chan_init_table, channel),
        context.data_ready,
        samples@.len() == sample_count,
        sample_count > 0,
    ensures
        ({
            let value = mean(samples@, sample_count)->0;
            let end = ReadState {
                pin,
                sample_count,
                stage: ReadStage::Finished,
                channel,
                reading: Some(Reading::Average(value)),
            };
            &&& read_run(
                pin,
                sample_count,
                seq![
                    HalReply::Channel(channel),
                    HalReply::Context(Some(context)),
                    HalReply::Samples(samples),
                ],
            ) == Ok::<ReadState, Fatal>(end)
            &&& sample_count <= WRAP_FREE_SAMPLES ==> value < SCALE
        }),
{
    reveal_with_fuel(run_from, 4);
    if sample_count <= WRAP_FREE_SAMPLES {
        lemma_mean_without_wrap(samples@);
    }
}

/// After an initialization on which every step succeeded, a reading of
/// the same channel finds it configured: it does not end in the failure
/// of a channel that was never initialized.
pub proof fn lemma_read_after_initialize(
    pin: i32,
    frequency_hz: u32,
    sample_count: u32,
    channel: i32,
    before: AdcContext,
    data_ready: bool,
)
    requires
        valid_pin(pin),
        valid_frequency(frequency_hz),
        valid_channel(channel),
    ensures
        ({
            let stored = configured(pin, frequency_hz, sample_count, channel, before).table;
            let after = AdcContext { chan_init_table: stored, data_ready };
            &&& state_of(after, channel) != SamplerState::Uninitialized
            &&& read_run(
                pin,
                sample_count,
                seq![HalReply::Channel(channel), HalReply::Context(Some(after))],
            ) is Ok
        }),
{
    reveal_with_fuel(run_from, 3);
    lemma_marked_is_recorded(before.chan_init_table, channel, channel);
}

} // verus!
