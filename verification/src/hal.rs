//! The calls that the applications make into the hardware abstraction
//! layer, and what comes back from them.
//!
//! The layer itself is not part of this crate. A state machine names the
//! next call as a [`HalCall`]; the caller makes it and hands the outcome
//! back as a [`HalReply`].

use vstd::prelude::*;

verus! {

/// What the sampler reads of the converter's DMA context.
#[derive(Clone, Copy, Debug, PartialEq, Eq, Structural)]
pub struct AdcContext {
    /// One bit for each channel that has been initialized.
    pub chan_init_table: u32,
    /// Whether the DMA engine has handed over a filled buffer. While it is
    /// still sampling, the context points to no data.
    pub data_ready: bool,
}

/// One call into the hardware abstraction layer.
#[derive(Clone, Copy, Debug, PartialEq, Eq, Structural)]
pub enum HalCall {
    /// Program the conversion clock.
    AdcFreqInit { mode: i32, frequency_hz: u32 },
    /// Set the converter up for a pin.
    AdcInit { mode: i32, pin: i32 },
    /// Set the levels of the two gain stages.
    AdcSetGain { gain1: u32, gain2: u32 },
    /// Size and arm the DMA ring buffer.
    AdcDmaInit { mode: i32, sample_count: u32 },
    /// Bind a pin to the converter: input, no pull-up, no pull-down.
    AdcGpioInit { pin: i32 },
    /// Ask for the channel that a pin is routed to.
    AdcChannelOfPin { pin: i32 },
    /// Look up the context of the converter's DMA channel.
    DmaFindContext,
    /// Write the table of initialized channels back to the context.
    StoreChannelTable { table: u32 },
    /// Start continuous conversion.
    AdcStart,
    /// Copy the filled DMA buffer into a private one.
    CopySamples { sample_count: u32 },
    /// Switch a pin to output.
    GpioEnableOutput { led: u8, pullup: u8, pulldown: u8 },
    /// Set the level of an output pin.
    GpioOutputSet { led: u8, value: u8 },
    /// Sleep.
    Delay { milliseconds: u32 },
}

/// What came back from a call.
#[derive(Debug, PartialEq, Eq)]
pub enum HalReply {
    /// The return code of a call that reports success as zero.
    Status(i32),
    /// The channel of a pin.
    Channel(i32),
    /// The DMA context, or none where the lookup failed.
    Context(Option<AdcContext>),
    /// The copy of the DMA buffer.
    Samples(Vec<u32>),
    /// The call returns nothing, and has returned.
    Done,
}

} // verus!
