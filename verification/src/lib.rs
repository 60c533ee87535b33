//! Transmit streaming for software-defined radios.
//!
//! The crate holds the decisions a transmit streamer makes around the radio
//! driver: how a transmission is described ([`TransmitMetadata`]), which sets
//! of channel buffers may be sent ([`check_equal_buffer_lengths`]), how the
//! streamer keeps its per-channel pointer cache, what it asks of the driver
//! for one transfer and what it returns once the driver has answered
//! ([`TransmitStreamer`]). The driver calls themselves are made by the caller,
//! who hands the driver's answers back in as plain values.

pub mod error;
pub mod stream;
pub mod thread;
pub mod time;
pub mod transmitter;

pub use error::{check_status, Error};
pub use thread::{set_thread_priority, ThreadPriority};
pub use time::TimeSpec;
pub use stream::{StopMode, StreamCommand, StreamState};
pub use transmitter::metadata::{BurstSpec, RawMetadata, TransmitMetadata};
pub use transmitter::streamer::{
    check_equal_buffer_lengths, common_buffer_length, TransferRequest, TransmitStreamer,
};
