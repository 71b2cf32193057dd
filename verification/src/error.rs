//! The ways in which an encoder operation can fail.

use vstd::prelude::*;

verus! {

/// Why an operation was refused or ended early.
#[derive(Clone, Copy, Debug, PartialEq, Eq, Structural)]
pub enum EncoderError {
    /// The stream has not been initialized yet.
    NotInitialized,
    /// The stream was initialized before.
    AlreadyInitialized,
    /// The stream was closed before.
    AlreadyClosed,
    /// The channel count is neither one nor two.
    UnsupportedChannels,
    /// The codec refused the configuration and returned this code.
    CodecRejected(i32),
    /// The batch holds more frames than the codec takes in one piece.
    BatchTooLarge,
    /// The sink reported that a page could not be written.
    Io,
    /// Writing the next page would push the byte count past `usize::MAX`.
    ByteCountOverflow,
    /// A call arrived while another answer was awaited, or a reply arrived
    /// that answers no outstanding request.
    OutOfTurn,
}

impl EncoderError {
    /// Whether the error says that the operation is invalid in the stream's
    /// current lifecycle state.
    pub open spec fn is_lifecycle(self) -> bool {
        self is NotInitialized || self is AlreadyInitialized || self is AlreadyClosed
    }

    /// Executable form of [`EncoderError::is_lifecycle`].
    #[verifier::when_used_as_spec(is_lifecycle)]
    pub fn lifecycle(self) -> (b: bool)
        ensures
            b == self.is_lifecycle(),
    {
        match self {
            EncoderError::NotInitialized => true,
            EncoderError::AlreadyInitialized => true,
            EncoderError::AlreadyClosed => true,
            _ => false,
        }
    }

    /// The text of the message, as a sequence of characters.
    pub open spec fn message_text(self) -> Seq<char> {
        match self {
            EncoderError::NotInitialized => "Audio stream not initialized."@,
            EncoderError::AlreadyInitialized => "Audio stream already initialized."@,
            EncoderError::AlreadyClosed => "Audio stream already closed."@,
            EncoderError::UnsupportedChannels => "Unsupported channel count."@,
            EncoderError::CodecRejected(_) => "Codec rejected the configuration."@,
            EncoderError::BatchTooLarge => "Audio batch too large."@,
            EncoderError::Io => "Audio stream could not be written."@,
            EncoderError::ByteCountOverflow => "Audio stream too large."@,
            EncoderError::OutOfTurn => "Audio stream operation out of turn."@,
        }
    }

    /// A description for people.
    pub fn message(&self) -> (s: String)
        ensures
            s@ == self.message_text(),
    {
        match self {
            EncoderError::NotInitialized => "Audio stream not initialized.".to_owned(),
            EncoderError::AlreadyInitialized => "Audio stream already initialized.".to_owned(),
            EncoderError::AlreadyClosed => "Audio stream already closed.".to_owned(),
            EncoderError::UnsupportedChannels => "Unsupported channel count.".to_owned(),
            EncoderError::CodecRejected(_) => "Codec rejected the configuration.".to_owned(),
            EncoderError::BatchTooLarge => "Audio batch too large.".to_owned(),
            EncoderError::Io => "Audio stream could not be written.".to_owned(),
            EncoderError::ByteCountOverflow => "Audio stream too large.".to_owned(),
            EncoderError::OutOfTurn => "Audio stream operation out of turn.".to_owned(),
        }
    }
}

} // verus!
