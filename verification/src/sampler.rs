//! The sampler: it configures one ADC channel for continuous conversion
//! through DMA, and reports the scaled mean of a filled buffer.
//!
//! Both operations alternate between calls into the hardware abstraction
//! layer and decisions on what came back. The decisions are made here.
//! [`initialize`] and [`read_average`] start a state machine; the caller
//! makes the call that is pending and hands back the reply, until none is
//! pending. A failure is fatal and ends the machine: there is no state in
//! which the channel is half configured and the machine goes on. What
//! holds of whole runs of the two machines is proved in [`crate::runs`].

use crate::average::{average, mean};
use crate::channel::{
    is_valid_frequency, is_valid_pin, mark_channel, marked, observe, observed, valid_frequency,
    valid_pin, SamplerState,
};
use crate::console::{byte_len, labelled, labelled_text, signed_decimal, terminated, written};
use crate::console::{lemma_byte_len_ascii, lemma_labelled_fits, lemma_short_ascii_fits};
use crate::console::{Line, CAPACITY};
use crate::fatal::Fatal;
use crate::hal::{AdcContext, HalCall, HalReply};
use crate::machine::{outcome, Machine};
use vstd::prelude::*;
use vstd::utf8::is_ascii_chars;

verus! {

/// The conversion mode that the sampler uses: one channel, continuously.
pub const SINGLE_CHANNEL_MODE: i32 = 1;

/// What the console shows when an initialization begins.
pub const INIT_BANNER: &'static str = "[Rust] Init ADC";

/// What the console shows while the DMA engine is still sampling.
pub const NOT_READY_NOTICE: &'static str = "ADC Sampling not finished";

/// What the console shows before the scaled mean.
pub const AVERAGE_LABEL: &'static str = "[Rust] Average: ";

/// The level of a gain stage that amplifies by one.
pub const ADC_PGA_GAIN_1: u32 = 1;

/// The level of the first gain stage.
pub const ADC_GAIN1: u32 = ADC_PGA_GAIN_1;

/// The level of the second gain stage.
pub const ADC_GAIN2: u32 = ADC_PGA_GAIN_1;

/// The step of the initialization that is next.
#[derive(Clone, Copy, Debug, PartialEq, Eq, Structural)]
pub enum InitStage {
    /// Program the conversion clock.
    Frequency,
    /// Set the converter up for the pin.
    Channel,
    /// Set the gain stages.
    Gain,
    /// Size and arm the DMA ring buffer.
    Dma,
    /// Bind the pin to the converter.
    Gpio,
    /// Ask for the channel of the pin.
    Lookup,
    /// Look up the DMA context.
    Context,
    /// Record the channel as initialized.
    Mark,
    /// Start continuous conversion.
    Start,
    /// Nothing is left to do: the channel is configured.
    Configured,
}

/// How far an initialization has come.
#[derive(Clone, Copy, Debug, PartialEq, Eq, Structural)]
pub struct InitState {
    /// The pin to sample.
    pub pin: i32,
    /// The sampling frequency.
    pub frequency_hz: u32,
    /// The size of the DMA ring buffer, in samples.
    pub sample_count: u32,
    /// The step that is next.
    pub stage: InitStage,
    /// The channel of the pin, once it is known.
    pub channel: i32,
    /// The table of initialized channels with this channel in it, once it
    /// is known.
    pub table: u32,
}

/// Where an initialization starts. A pin or a frequency that the converter
/// does not take is fatal before any call is made.
pub open spec fn init_start(pin: i32, frequency_hz: u32, sample_count: u32) -> Result<
    InitState,
    Fatal,
> {
    if !valid_pin(pin) {
        Err(Fatal::UnsupportedPin)
    } else if !valid_frequency(frequency_hz) {
        Err(Fatal::FrequencyOutOfRange)
    } else {
        Ok(
            InitState {
                pin,
                frequency_hz,
                sample_count,
                stage: InitStage::Frequency,
                channel: 0,
                table: 0,
            },
        )
    }
}

/// The call that an initialization is waiting for, if any.
pub open spec fn init_call(s: InitState) -> Option<HalCall> {
    match s.stage {
        InitStage::Frequency => Some(
            HalCall::AdcFreqInit { mode: SINGLE_CHANNEL_MODE, frequency_hz: s.frequency_hz },
        ),
        InitStage::Channel => Some(HalCall::AdcInit { mode: SINGLE_CHANNEL_MODE, pin: s.pin }),
        InitStage::Gain => Some(HalCall::AdcSetGain { gain1: ADC_GAIN1, gain2: ADC_GAIN2 }),
        InitStage::Dma => Some(
            HalCall::AdcDmaInit { mode: SINGLE_CHANNEL_MODE, sample_count: s.sample_count },
        ),
        InitStage::Gpio => Some(HalCall::AdcGpioInit { pin: s.pin }),
        InitStage::Lookup => Some(HalCall::AdcChannelOfPin { pin: s.pin }),
        InitStage::Context => Some(HalCall::DmaFindContext),
        InitStage::Mark => Some(HalCall::StoreChannelTable { table: s.table }),
        InitStage::Start => Some(HalCall::AdcStart),
        InitStage::Configured => None,
    }
}

/// The failure of a step whose call reports a return code.
pub open spec fn status_failure(stage: InitStage) -> Fatal {
    match stage {
        InitStage::Frequency => Fatal::FrequencyInit,
        InitStage::Channel => Fatal::ChannelInit,
        InitStage::Gain => Fatal::Gain,
        InitStage::Dma => Fatal::DmaInit,
        InitStage::Gpio => Fatal::GpioInit,
        InitStage::Start => Fatal::Start,
        _ => Fatal::UnexpectedReply,
    }
}

/// The step that follows a step.
pub open spec fn next_stage(stage: InitStage) -> InitStage {
    match stage {
        InitStage::Frequency => InitStage::Channel,
        InitStage::Channel => InitStage::Gain,
        InitStage::Gain => InitStage::Dma,
        InitStage::Dma => InitStage::Gpio,
        InitStage::Gpio => InitStage::Lookup,
        InitStage::Lookup => InitStage::Context,
        InitStage::Context => InitStage::Mark,
        InitStage::Mark => InitStage::Start,
        InitStage::Start => InitStage::Configured,
        InitStage::Configured => InitStage::Configured,
    }
}

/// The state with the stage moved on by one step.
pub open spec fn advanced(s: InitState) -> InitState {
    InitState { stage: next_stage(s.stage), ..s }
}

/// What an initialization makes of a reply: the state it goes on in, or
/// the failure that ends it.
pub open spec fn init_step(s: InitState, reply: HalReply) -> Result<InitState, Fatal> {
    match (s.stage, reply) {
        (InitStage::Frequency, HalReply::Status(code))
        | (InitStage::Channel, HalReply::Status(code))
        | (InitStage::Gain, HalReply::Status(code))
        | (InitStage::Dma, HalReply::Status(code))
        | (InitStage::Gpio, HalReply::Status(code))
        | (InitStage::Start, HalReply::Status(code)) => {
            if code == 0 {
                Ok(advanced(s))
            } else {
                Err(status_failure(s.stage))
            }
        },
        (InitStage::Lookup, HalReply::Channel(channel)) => Ok(
            InitState { channel, ..advanced(s) },
        ),
        (InitStage::Context, HalReply::Context(None)) => Err(Fatal::ContextLookup),
        (InitStage::Context, HalReply::Context(Some(context))) => {
            match marked(context.chan_init_table, s.channel) {
                Ok(table) => Ok(InitState { table, ..advanced(s) }),
                Err(f) => Err(f),
            }
        },
        (InitStage::Mark, HalReply::Done) => Ok(advanced(s)),
        _ => Err(Fatal::UnexpectedReply),
    }
}

/// An initialization under way.
///
/// One exists only for a pin and a frequency that the converter takes.
#[derive(Debug)]
pub struct Initializer {
    state: InitState,
}

/// Starts to configure `channel_pin` for continuous conversion at
/// `sample_frequency_hz` into a DMA ring buffer of `sample_count` samples.
///
/// A pin or a frequency that the converter does not take is fatal here,
/// before anything is asked of the hardware.
pub fn initialize(channel_pin: i32, sample_frequency_hz: u32, sample_count: u32) -> (r: Result<
    Initializer,
    Fatal,
>)
    ensures
        outcome(r) == init_start(channel_pin, sample_frequency_hz, sample_count),
{
    if !is_valid_pin(channel_pin) {
        return Err(Fatal::UnsupportedPin);
    }
    if !is_valid_frequency(sample_frequency_hz) {
        return Err(Fatal::FrequencyOutOfRange);
    }
    Ok(
        Initializer {
            state: InitState {
                pin: channel_pin,
                frequency_hz: sample_frequency_hz,
                sample_count,
                stage: InitStage::Frequency,
                channel: 0,
                table: 0,
            },
        },
    )
}

impl Initializer {
    #[verifier::type_invariant]
    spec fn well_formed(self) -> bool {
        valid_pin(self.state.pin) && valid_frequency(self.state.frequency_hz)
    }

    /// How far the initialization has come.
    pub fn state(&self) -> (s: InitState)
        ensures
            s == self.model(),
            valid_pin(s.pin),
            valid_frequency(s.frequency_hz),
    {
        proof {
            use_type_invariant(self);
        }
        self.state
    }

    /// Whether the channel is configured: nothing is left to do.
    pub fn is_configured(&self) -> (b: bool)
        ensures
            b == (self.model().stage == InitStage::Configured),
    {
        match self.state.stage {
            InitStage::Configured => true,
            _ => false,
        }
    }

    fn after_status(s: InitState, code: i32, next: InitStage, failure: Fatal) -> (r: Result<
        Initializer,
        Fatal,
    >)
        requires
            valid_pin(s.pin),
            valid_frequency(s.frequency_hz),
        ensures
            r == if code == 0 {
                Ok::<Initializer, Fatal>(Initializer { state: InitState { stage: next, ..s } })
            } else {
                Err::<Initializer, Fatal>(failure)
            },
    {
        if code == 0 {
            Ok(Initializer { state: InitState { stage: next, ..s } })
        } else {
            Err(failure)
        }
    }
}

impl Machine for Initializer {
    type State = InitState;

    closed spec fn model(&self) -> InitState {
        self.state
    }

    open spec fn call_in(state: InitState) -> Option<HalCall> {
        init_call(state)
    }

    open spec fn step(state: InitState, reply: HalReply) -> Result<InitState, Fatal> {
        init_step(state, reply)
    }

    fn pending(&self) -> (call: Option<HalCall>) {
        let s = &self.state;
        match s.stage {
            InitStage::Frequency => Some(
                HalCall::AdcFreqInit { mode: SINGLE_CHANNEL_MODE, frequency_hz: s.frequency_hz },
            ),
            InitStage::Channel => Some(
                HalCall::AdcInit { mode: SINGLE_CHANNEL_MODE, pin: s.pin },
            ),
            InitStage::Gain => Some(HalCall::AdcSetGain { gain1: ADC_GAIN1, gain2: ADC_GAIN2 }),
            InitStage::Dma => Some(
                HalCall::AdcDmaInit { mode: SINGLE_CHANNEL_MODE, sample_count: s.sample_count },
            ),
            InitStage::Gpio => Some(HalCall::AdcGpioInit { pin: s.pin }),
            InitStage::Lookup => Some(HalCall::AdcChannelOfPin { pin: s.pin }),
            InitStage::Context => Some(HalCall::DmaFindContext),
            InitStage::Mark => Some(HalCall::StoreChannelTable { table: s.table }),
            InitStage::Start => Some(HalCall::AdcStart),
            InitStage::Configured => None,
        }
    }

    fn reply(self, reply: &HalReply) -> (r: Result<Initializer, Fatal>) {
        proof {
            use_type_invariant(&self);
        }
        let s = self.state;
        match (s.stage, reply) {
            (InitStage::Frequency, HalReply::Status(code)) => Self::after_status(
                s,
                *code,
                InitStage::Channel,
                Fatal::FrequencyInit,
            ),
            (InitStage::Channel, HalReply::Status(code)) => Self::after_status(
                s,
                *code,
                InitStage::Gain,
                Fatal::ChannelInit,
            ),
            (InitStage::Gain, HalReply::Status(code)) => Self::after_status(
                s,
                *code,
                InitStage::Dma,
                Fatal::Gain,
            ),
            (InitStage::Dma, HalReply::Status(code)) => Self::after_status(
                s,
                *code,
                InitStage::Gpio,
                Fatal::DmaInit,
            ),
            (InitStage::Gpio, HalReply::Status(code)) => Self::after_status(
                s,
                *code,
                InitStage::Lookup,
                Fatal::GpioInit,
            ),
            (InitStage::Start, HalReply::Status(code)) => Self::after_status(
                s,
                *code,
                InitStage::Configured,
                Fatal::Start,
            ),
            (InitStage::Lookup, HalReply::Channel(channel)) => Ok(
                Initializer {
                    state: InitState { channel: *channel, stage: InitStage::Context, ..s },
                },
            ),
            (InitStage::Context, HalReply::Context(None)) => Err(Fatal::ContextLookup),
            (InitStage::Context, HalReply::Context(Some(context))) => {
                match mark_channel(context.chan_init_table, s.channel) {
                    Ok(table) => Ok(
                        Initializer { state: InitState { table, stage: InitStage::Mark, ..s } },
                    ),
                    Err(f) => Err(f),
                }
            },
            (InitStage::Mark, HalReply::Done) => Ok(
                Initializer { state: InitState { stage: InitStage::Start, ..s } },
            ),
            _ => Err(Fatal::UnexpectedReply),
        }
    }
}

/// What a finished reading reports.
#[derive(Clone, Copy, Debug, PartialEq, Eq, Structural)]
pub enum Reading {
    /// The DMA engine is still sampling: ask again later.
    NotReady,
    /// The scaled mean of the filled buffer.
    Average(u32),
}

/// The step of a reading that is next.
#[derive(Clone, Copy, Debug, PartialEq, Eq, Structural)]
pub enum ReadStage {
    /// Ask for the channel of the pin.
    Lookup,
    /// Look up the DMA context.
    Context,
    /// Copy the filled buffer.
    Snapshot,
    /// Nothing is left to do: there is a report.
    Finished,
}

/// How far a reading has come.
#[derive(Clone, Copy, Debug, PartialEq, Eq, Structural)]
pub struct ReadState {
    /// The pin to read.
    pub pin: i32,
    /// The size of the DMA ring buffer, in samples.
    pub sample_count: u32,
    /// The step that is next.
    pub stage: ReadStage,
    /// The channel of the pin, once it is known.
    pub channel: i32,
    /// The report, once the reading is finished.
    pub reading: Option<Reading>,
}

/// Where a reading starts.
pub open spec fn read_start(pin: i32, sample_count: u32) -> ReadState {
    ReadState { pin, sample_count, stage: ReadStage::Lookup, channel: 0, reading: None }
}

/// The call that a reading is waiting for, if any.
pub open spec fn read_call(s: ReadState) -> Option<HalCall> {
    match s.stage {
        ReadStage::Lookup => Some(HalCall::AdcChannelOfPin { pin: s.pin }),
        ReadStage::Context => Some(HalCall::DmaFindContext),
        ReadStage::Snapshot => Some(HalCall::CopySamples { sample_count: s.sample_count }),
        ReadStage::Finished => None,
    }
}

/// What a reading makes of the DMA context: it fails on a channel that
/// was never initialized, reports at once while the DMA engine is still
/// sampling, and asks for a copy of the buffer once that is filled.
pub open spec fn read_context(s: ReadState, context: AdcContext) -> Result<ReadState, Fatal> {
    match observed(context, s.channel) {
        Err(f) => Err(f),
        Ok(SamplerState::Uninitialized) => Err(Fatal::ChannelNotConfigured),
        Ok(SamplerState::SamplingInProgress) => Ok(
            ReadState { stage: ReadStage::Finished, reading: Some(Reading::NotReady), ..s },
        ),
        Ok(SamplerState::SampleReady) => Ok(ReadState { stage: ReadStage::Snapshot, ..s }),
    }
}

/// What a reading makes of the copy of the buffer: the scaled mean, where
/// the copy has the length of the ring buffer and that is not zero.
pub open spec fn read_samples(s: ReadState, samples: Seq<u32>) -> Result<ReadState, Fatal> {
    if samples.len() != s.sample_count {
        Err(Fatal::SnapshotLength)
    } else {
        match mean(samples, s.sample_count) {
            None => Err(Fatal::NoSamples),
            Some(value) => Ok(
                ReadState {
                    stage: ReadStage::Finished,
                    reading: Some(Reading::Average(value)),
                    ..s
                },
            ),
        }
    }
}

/// What a reading makes of a reply: the state it goes on in, or the
/// failure that ends it.
pub open spec fn read_step(s: ReadState, reply: HalReply) -> Result<ReadState, Fatal> {
    match (s.stage, reply) {
        (ReadStage::Lookup, HalReply::Channel(channel)) => Ok(
            ReadState { channel, stage: ReadStage::Context, ..s },
        ),
        (ReadStage::Context, HalReply::Context(None)) => Err(Fatal::ContextLookup),
        (ReadStage::Context, HalReply::Context(Some(context))) => read_context(s, context),
        (ReadStage::Snapshot, HalReply::Samples(samples)) => read_samples(s, samples@),
        _ => Err(Fatal::UnexpectedReply),
    }
}

/// A reading under way.
#[derive(Debug)]
pub struct Reader {
    state: ReadState,
}

/// Starts to read the scaled mean of the buffer of `sample_count` samples
/// that the DMA engine fills for `channel_pin`.
pub fn read_average(channel_pin: i32, sample_count: u32) -> (reader: Reader)
    ensures
        reader.model() == read_start(channel_pin, sample_count),
{
    Reader {
        state: ReadState {
            pin: channel_pin,
            sample_count,
            stage: ReadStage::Lookup,
            channel: 0,
            reading: None,
        },
    }
}

impl Reader {
    /// How far the reading has come.
    pub fn state(&self) -> (s: ReadState)
        ensures
            s == self.model(),
    {
        self.state
    }

    /// The report, once the reading is finished.
    pub fn reading(&self) -> (r: Option<Reading>)
        ensures
            r == self.model().reading,
    {
        self.state.reading
    }
}

impl Machine for Reader {
    type State = ReadState;

    closed spec fn model(&self) -> ReadState {
        self.state
    }

    open spec fn call_in(state: ReadState) -> Option<HalCall> {
        read_call(state)
    }

    open spec fn step(state: ReadState, reply: HalReply) -> Result<ReadState, Fatal> {
        read_step(state, reply)
    }

    fn pending(&self) -> (call: Option<HalCall>) {
        let s = &self.state;
        match s.stage {
            ReadStage::Lookup => Some(HalCall::AdcChannelOfPin { pin: s.pin }),
            ReadStage::Context => Some(HalCall::DmaFindContext),
            ReadStage::Snapshot => Some(HalCall::CopySamples { sample_count: s.sample_count }),
            ReadStage::Finished => None,
        }
    }

    fn reply(self, reply: &HalReply) -> (r: Result<Reader, Fatal>) {
        let s = self.state;
        match (s.stage, reply) {
            (ReadStage::Lookup, HalReply::Channel(channel)) => Ok(
                Reader { state: ReadState { channel: *channel, stage: ReadStage::Context, ..s } },
            ),
            (ReadStage::Context, HalReply::Context(None)) => Err(Fatal::ContextLookup),
            (ReadStage::Context, HalReply::Context(Some(context))) => {
                match observe(context, s.channel) {
                    Err(f) => Err(f),
                    Ok(SamplerState::Uninitialized) => Err(Fatal::ChannelNotConfigured),
                    Ok(SamplerState::SamplingInProgress) => Ok(
                        Reader {
                            state: ReadState {
                                stage: ReadStage::Finished,
                                reading: Some(Reading::NotReady),
                                ..s
                            },
                        },
                    ),
                    Ok(SamplerState::SampleReady) => Ok(
                        Reader { state: ReadState { stage: ReadStage::Snapshot, ..s } },
                    ),
                }
            },
            (ReadStage::Snapshot, HalReply::Samples(samples)) => {
                if samples.len() > u32::MAX as usize || samples.len() as u32 != s.sample_count {
                    return Err(Fatal::SnapshotLength);
                }
                match average(samples.as_slice(), s.sample_count) {
                    None => Err(Fatal::NoSamples),
                    Some(value) => Ok(
                        Reader {
                            state: ReadState {
                                stage: ReadStage::Finished,
                                reading: Some(Reading::Average(value)),
                                ..s
                            },
                        },
                    ),
                }
            },
            _ => Err(Fatal::UnexpectedReply),
        }
    }
}

/// The line that the console shows for a report.
pub open spec fn report_text(reading: Reading) -> Seq<char> {
    match reading {
        Reading::NotReady => NOT_READY_NOTICE@,
        Reading::Average(value) => AVERAGE_LABEL@ + signed_decimal(value as int),
    }
}

/// Writes the line that the console shows for a report. It always fits.
pub fn report(reading: Reading) -> (r: Result<Line, Fatal>)
    ensures
        written(r) == Ok::<Seq<char>, Fatal>(report_text(reading)),
{
    proof {
        lemma_report_fits(reading);
    }
    match reading {
        Reading::NotReady => {
            let mut line = Line::new();
            proof {
                lemma_byte_len_ascii(Seq::<char>::empty());
            }
            match line.push_str(NOT_READY_NOTICE) {
                Ok(()) => Ok(line),
                Err(f) => Err(f),
            }
        },
        Reading::Average(value) => labelled(AVERAGE_LABEL, value as i64),
    }
}

/// The line of a report is ASCII text of fewer bytes than a line holds, so
/// that the console takes it with the terminator after it. The same holds
/// of the banner.
pub proof fn lemma_report_fits(reading: Reading)
    ensures
        is_ascii_chars(report_text(reading)),
        byte_len(report_text(reading)) == report_text(reading).len() < CAPACITY,
        terminated(report_text(reading)) == Ok::<Seq<char>, Fatal>(
            report_text(reading).push('\0'),
        ),
        terminated(INIT_BANNER@) == Ok::<Seq<char>, Fatal>(INIT_BANNER@.push('\0')),
        reading matches Reading::Average(value) ==> labelled_text(AVERAGE_LABEL@, value as int)
            == Ok::<Seq<char>, Fatal>(report_text(reading)),
{
    reveal_strlit("[Rust] Init ADC");
    reveal_strlit("ADC Sampling not finished");
    reveal_strlit("[Rust] Average: ");
    lemma_short_ascii_fits(INIT_BANNER@);
    match reading {
        Reading::NotReady => {
            lemma_short_ascii_fits(NOT_READY_NOTICE@);
        },
        Reading::Average(value) => {
            lemma_labelled_fits(AVERAGE_LABEL@, value as int);
        },
    }
    lemma_byte_len_ascii(report_text(reading));
}

} // verus!
