//! Rules of three small firmware applications for the BL602: a console
//! greeting, an ADC sampler that averages a DMA ring buffer, and a script
//! demo that blinks an LED.
//!
//! The crate holds what these applications decide and compute. Talking to
//! the hardware abstraction layer is left to the caller: the state machines
//! here say which call comes next and take its reply. Nothing here panics:
//! where the firmware has to stop, a function returns the [`Fatal`] that
//! says why.

pub mod average;
pub mod channel;
pub mod console;
pub mod fatal;
pub mod hal;
pub mod machine;
pub mod runs;
pub mod sampler;
pub mod script;

pub use console::Line;
pub use fatal::{foo, Fatal, Stop};
pub use hal::{AdcContext, HalCall, HalReply};
pub use machine::{replay, Machine};
