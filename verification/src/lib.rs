//! A driven Ogg Vorbis encoder core.
//!
//! The encoder in this crate decides; it never touches the codec, the
//! container framer or the output sink itself. Every operation answers with a
//! [`Request`] that names the next piece of outside work, and the driver hands
//! the outcome back as a [`Reply`]:
//!
//! * `initialize` has the codec configured, the stream opened under the
//!   encoder's identity, and the header pages forced out;
//! * `write_samples` splits a batch into one plane per channel, and then has
//!   blocks analysed, packets queued and ready pages written, in that order;
//! * `close` signals the end of input and drains what is left.
//!
//! What is decided, in which order, and how many bytes have reached the sink
//! is stated in contracts over [`model::EncoderModel`] and proved; what holds
//! over any sequence of calls stands in [`laws`].

pub mod encoder;
pub mod error;
mod identity;
pub mod laws;
pub mod model;
pub mod page;
pub mod protocol;
pub mod samples;
pub mod setup;

pub use encoder::OggVorbisEncoder;
pub use error::EncoderError;
pub use model::{EncoderState, Phase};
pub use page::Page;
pub use protocol::{Reply, Request};
pub use setup::{CodecSetup, Quality};
