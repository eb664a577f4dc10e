//! The conditions on which the firmware stops, and the way it stops.
//!
//! Nothing in this crate panics. Where the firmware has to give up, a
//! function returns a [`Fatal`]; the caller prints its message and stops.

use crate::console::{lemma_short_ascii_fits, terminated};
use vstd::prelude::*;
use vstd::utf8::is_ascii_chars;

verus! {

/// A condition that the firmware cannot continue from.
///
/// Each names the step that failed. None of them is meant to be handled:
/// they stand for a wrong configuration or a bug in the caller.
#[derive(Clone, Copy, Debug, PartialEq, Eq, Structural, Hash)]
pub enum Fatal {
    /// The pin cannot be routed to the converter.
    UnsupportedPin,
    /// The sampling frequency is outside the range of single-channel mode.
    FrequencyOutOfRange,
    /// The conversion clock could not be programmed.
    FrequencyInit,
    /// The converter did not accept the pin.
    ChannelInit,
    /// The gain stages did not accept their levels.
    Gain,
    /// The ring buffer could not be set up.
    DmaInit,
    /// The pin could not be bound to the converter.
    GpioInit,
    /// No context is registered for the converter's DMA channel.
    ContextLookup,
    /// The channel number does not name a bit of the channel table.
    ChannelOutOfRange,
    /// Continuous conversion did not start.
    Start,
    /// A reading was asked of a channel that was never initialized.
    ChannelNotConfigured,
    /// The snapshot does not hold as many samples as the ring buffer.
    SnapshotLength,
    /// The ring buffer holds no sample, so there is nothing to average.
    NoSamples,
    /// A line did not fit into its buffer.
    BufferOverflow,
    /// A message is longer than the console buffer.
    PutsConversion,
    /// A message leaves no room for its terminator.
    PutsOverflow,
    /// The script did not evaluate to an integer.
    Script,
    /// The pin could not be switched to output.
    GpioEnableOutput,
    /// The level of an output pin could not be set.
    GpioOutput,
    /// A reply does not answer the call that was pending.
    UnexpectedReply,
}

impl Fatal {
    /// The diagnostic that identifies the failed step.
    pub open spec fn text(self) -> Seq<char> {
        match self {
            Fatal::UnsupportedPin => "ADC GPIO not supported"@,
            Fatal::FrequencyOutOfRange => "ADC Frequency out of range"@,
            Fatal::FrequencyInit => "ADC Freq failed"@,
            Fatal::ChannelInit => "ADC Init failed"@,
            Fatal::Gain => "ADC Gain failed"@,
            Fatal::DmaInit => "DMA Init failed"@,
            Fatal::GpioInit => "ADC GPIO failed"@,
            Fatal::ContextLookup => "DMA Ctx failed"@,
            Fatal::ChannelOutOfRange => "ADC Channel out of range"@,
            Fatal::Start => "ADC Start failed"@,
            Fatal::ChannelNotConfigured => "ADC Channel not initialised"@,
            Fatal::SnapshotLength => "ADC Snapshot length mismatch"@,
            Fatal::NoSamples => "ADC Samples missing"@,
            Fatal::BufferOverflow => "buf overflow"@,
            Fatal::PutsConversion => "puts conversion failed"@,
            Fatal::PutsOverflow => "puts overflow"@,
            Fatal::Script => "Rhai Script failed"@,
            Fatal::GpioEnableOutput => "GPIO enable output failed"@,
            Fatal::GpioOutput => "GPIO output failed"@,
            Fatal::UnexpectedReply => "HAL reply not expected"@,
        }
    }

    /// The diagnostic to print before stopping.
    pub fn message(&self) -> (m: &'static str)
        ensures
            m@ == self.text(),
    {
        match self {
            Fatal::UnsupportedPin => "ADC GPIO not supported",
            Fatal::FrequencyOutOfRange => "ADC Frequency out of range",
            Fatal::FrequencyInit => "ADC Freq failed",
            Fatal::ChannelInit => "ADC Init failed",
            Fatal::Gain => "ADC Gain failed",
            Fatal::DmaInit => "DMA Init failed",
            Fatal::GpioInit => "ADC GPIO failed",
            Fatal::ContextLookup => "DMA Ctx failed",
            Fatal::ChannelOutOfRange => "ADC Channel out of range",
            Fatal::Start => "ADC Start failed",
            Fatal::ChannelNotConfigured => "ADC Channel not initialised",
            Fatal::SnapshotLength => "ADC Snapshot length mismatch",
            Fatal::NoSamples => "ADC Samples missing",
            Fatal::BufferOverflow => "buf overflow",
            Fatal::PutsConversion => "puts conversion failed",
            Fatal::PutsOverflow => "puts overflow",
            Fatal::Script => "Rhai Script failed",
            Fatal::GpioEnableOutput => "GPIO enable output failed",
            Fatal::GpioOutput => "GPIO output failed",
            Fatal::UnexpectedReply => "HAL reply not expected",
        }
    }
}

/// The notice that the console shows when the firmware stops after a panic.
pub const PANIC_NOTICE: &'static str = "TODO: Rust panic";

/// The way the firmware stops for good.
#[derive(Clone, Copy, Debug, PartialEq, Eq, Structural, Hash)]
pub enum Stop {
    /// After a panic: show [`PANIC_NOTICE`], then loop forever.
    Spin,
    /// After a failed allocation: end at once, showing nothing.
    Abort,
}

impl Stop {
    /// What the console shows before the firmware stops this way.
    pub open spec fn notice_text(self) -> Option<Seq<char>> {
        match self {
            Stop::Spin => Some(PANIC_NOTICE@),
            Stop::Abort => None,
        }
    }

    /// The notice to show before stopping, if there is one.
    pub fn notice(&self) -> (n: Option<&'static str>)
        ensures
            match n {
                Some(text) => self.notice_text() == Some(text@),
                None => self.notice_text() is None,
            },
    {
        match self {
            Stop::Spin => Some(PANIC_NOTICE),
            Stop::Abort => None,
        }
    }
}

/// `std::alloc::Layout`, the size and alignment of an allocation. It is
/// carried through; nothing is read of it.
#[verifier::external_type_specification]
#[verifier::external_body]
pub struct ExLayout(std::alloc::Layout);

/// What the firmware does when the global allocator cannot serve a request
/// of the given layout: whatever was asked for, it aborts.
pub fn foo(_layout: std::alloc::Layout) -> (stop: Stop)
    ensures
        stop == Stop::Abort,
{
    Stop::Abort
}

/// The console takes every diagnostic, and the notice of a panic: printing
/// the reason for stopping cannot fail in its turn.
pub proof fn lemma_diagnostics_fit(f: Fatal)
    ensures
        terminated(f.text()) == Ok::<Seq<char>, Fatal>(f.text().push('\0')),
        terminated(PANIC_NOTICE@) == Ok::<Seq<char>, Fatal>(PANIC_NOTICE@.push('\0')),
{
    reveal_strlit("ADC GPIO not supported");
    reveal_strlit("ADC Frequency out of range");
    reveal_strlit("ADC Freq failed");
    reveal_strlit("ADC Init failed");
    reveal_strlit("ADC Gain failed");
    reveal_strlit("DMA Init failed");
    reveal_strlit("ADC GPIO failed");
    reveal_strlit("DMA Ctx failed");
    reveal_strlit("ADC Channel out of range");
    reveal_strlit("ADC Start failed");
    reveal_strlit("ADC Channel not initialised");
    reveal_strlit("ADC Snapshot length mismatch");
    reveal_strlit("ADC Samples missing");
    reveal_strlit("buf overflow");
    reveal_strlit("puts conversion failed");
    reveal_strlit("puts overflow");
    reveal_strlit("Rhai Script failed");
    reveal_strlit("GPIO enable output failed");
    reveal_strlit("GPIO output failed");
    reveal_strlit("HAL reply not expected");
    reveal_strlit("TODO: Rust panic");
    lemma_short_ascii_fits(f.text());
    lemma_short_ascii_fits(PANIC_NOTICE@);
}

} // verus!
