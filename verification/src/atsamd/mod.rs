//! The pieces of a host controller for Atmel SAMD chips that do not touch
//! the chip: the pipe descriptors it shares with the hardware, and the
//! decisions of its pipe engine and of its bus state machine.
pub mod error;
pub mod host;
pub mod pipe;

pub use host::{HostIrq, HostState};
