//! The encoder: lifecycle, the order of the codec's and the framer's work,
//! and the count of bytes written.

use crate::error::EncoderError;
use crate::identity::random_serial;
use crate::model::{
    count_after, lemma_total_len_push, total_len, EncoderModel, EncoderState, Phase,
};
use crate::page::PageView;
use crate::protocol::{Reply, Request, RequestView};
use crate::samples::{batch_frames, split_channels};
use crate::setup::{supported_channels, CodecSetup, Quality};
use vstd::prelude::*;

verus! {

/// The mathematical content of an answer.
pub open spec fn answer_view(
    answer: Result<Request, EncoderError>,
) -> Result<RequestView, EncoderError> {
    match answer {
        Ok(request) => Ok(request@),
        Err(e) => Err(e),
    }
}

/// An Ogg Vorbis audio encoder that is driven from outside.
///
/// `initialize`, `write_samples` and `close` each start an operation and
/// answer with the first request of it. The driver performs each request and
/// passes the reply to `resume`, until the answer is [`Request::Finished`] or
/// an error.
pub struct OggVorbisEncoder {
    state: EncoderState,
    phase: Phase,
    serial: u32,
    channels: usize,
    file_size: usize,
    written: Ghost<Seq<PageView>>,
    pending: Ghost<Option<PageView>>,
}

impl View for OggVorbisEncoder {
    type V = EncoderModel;

    closed spec fn view(&self) -> EncoderModel {
        EncoderModel {
            state: self.state,
            phase: self.phase,
            serial: self.serial,
            channels: self.channels,
            written: self.written@,
            pending: self.pending@,
        }
    }
}

impl OggVorbisEncoder {
    #[verifier::type_invariant]
    spec fn well_formed(self) -> bool {
        &&& self.file_size == total_len(self.written@)
        &&& self@.inv()
    }

    /// Creates an encoder under the given stream identity.
    pub fn with_serial(serial: u32) -> (encoder: OggVorbisEncoder)
        ensures
            encoder@ == EncoderModel::fresh(serial),
            encoder@.inv(),
    {
        OggVorbisEncoder {
            state: EncoderState::Created,
            phase: Phase::Idle,
            serial,
            channels: 0,
            file_size: 0,
            written: Ghost(Seq::empty()),
            pending: Ghost(None),
        }
    }

    /// Creates an encoder under a stream identity drawn at random.
    pub fn new() -> (encoder: OggVorbisEncoder)
        ensures
            encoder@ == EncoderModel::fresh(encoder@.serial),
            encoder@.inv(),
    {
        Self::with_serial(random_serial())
    }

    /// Where the stream stands in its life.
    pub fn state(&self) -> (state: EncoderState)
        ensures
            state == self@.state,
    {
        self.state
    }

    /// The reply that is awaited.
    pub fn phase(&self) -> (phase: Phase)
        ensures
            phase == self@.phase,
    {
        self.phase
    }

    /// The stream identity.
    pub fn serial(&self) -> (serial: u32)
        ensures
            serial == self@.serial,
    {
        self.serial
    }

    /// Returns the number of bytes that the sink has taken.
    pub fn len(&self) -> (n: usize)
        ensures
            n == self@.bytes_written(),
            n == total_len(self@.written),
    {
        proof {
            use_type_invariant(self);
        }
        self.file_size
    }

    fn begin(&mut self, allowed: EncoderState) -> (refusal: Option<EncoderError>)
        ensures
            final(self)@ == old(self)@,
            final(self)@.inv(),
            refusal == (match old(self)@.refusal(allowed) {
                Some(e) => Some(e),
                None => if old(self)@.phase is Idle {
                    None
                } else {
                    Some(EncoderError::OutOfTurn)
                },
            }),
    {
        proof {
            use_type_invariant(&*self);
        }
        if self.state != allowed {
            match self.state {
                EncoderState::Created => Some(EncoderError::NotInitialized),
                EncoderState::Initialized => Some(EncoderError::AlreadyInitialized),
                EncoderState::Closed => Some(EncoderError::AlreadyClosed),
            }
        } else {
            match self.phase {
                Phase::Idle => None,
                _ => Some(EncoderError::OutOfTurn),
            }
        }
    }

    fn configure(
        &mut self,
        channels: usize,
        setup: Option<CodecSetup>,
    ) -> (answer: Result<Request, EncoderError>)
        requires
            setup is Some ==> supported_channels(channels),
        ensures
            (final(self)@, answer_view(answer)) == old(self)@.initialize(channels, setup),
            final(self)@.inv(),
    {
        match self.begin(EncoderState::Created) {
            Some(e) => Err(e),
            None => match setup {
                None => Err(EncoderError::UnsupportedChannels),
                Some(s) => {
                    proof {
                        use_type_invariant(&*self);
                    }
                    self.phase = Phase::Configuring { channels };
                    Ok(Request::Configure(s))
                },
            },
        }
    }

    /// Initializes the audio stream for encoding with a pre-defined bitrate
    /// configuration. A missing bound leaves the bitrate unconstrained on
    /// that side.
    pub fn initialize(
        &mut self,
        channels: usize,
        sample_rate: u32,
        nominal_bitrate: u32,
        min_bitrate: Option<u32>,
        max_bitrate: Option<u32>,
    ) -> (answer: Result<Request, EncoderError>)
        ensures
            (final(self)@, answer_view(answer)) == old(self)@.initialize(
                channels,
                CodecSetup::managed_spec(
                    channels,
                    sample_rate,
                    nominal_bitrate,
                    min_bitrate,
                    max_bitrate,
                ),
            ),
            final(self)@.inv(),
    {
        let setup = CodecSetup::managed(
            channels,
            sample_rate,
            nominal_bitrate,
            min_bitrate,
            max_bitrate,
        );
        self.configure(channels, setup)
    }

    /// Initializes the audio stream with variable bitrate encoding.
    pub fn initialize_with_vbr(
        &mut self,
        channels: usize,
        sample_rate: u32,
        quality: Quality,
    ) -> (answer: Result<Request, EncoderError>)
        ensures
            (final(self)@, answer_view(answer)) == old(self)@.initialize(
                channels,
                CodecSetup::vbr_spec(channels, sample_rate, quality),
            ),
            final(self)@.inv(),
    {
        let setup = CodecSetup::vbr(channels, sample_rate, quality);
        self.configure(channels, setup)
    }

    /// Writes the `samples` into the audio stream. The samples are
    /// interleaved; those of a trailing partial frame are left out.
    pub fn write_samples(&mut self, samples: &[i16]) -> (answer: Result<Request, EncoderError>)
        ensures
            (final(self)@, answer_view(answer)) == old(self)@.write_samples(samples@),
            final(self)@.inv(),
    {
        match self.begin(EncoderState::Initialized) {
            Some(e) => Err(e),
            None => {
                proof {
                    use_type_invariant(&*self);
                }
                match batch_frames(samples.len(), self.channels) {
                    Err(e) => Err(e),
                    Ok(_) => {
                        let planes = split_channels(samples, self.channels);
                        self.phase = Phase::Submitting;
                        Ok(Request::Submit { planes })
                    },
                }
            },
        }
    }

    /// Closes the audio stream.
    pub fn close(&mut self) -> (answer: Result<Request, EncoderError>)
        ensures
            (final(self)@, answer_view(answer)) == old(self)@.close(),
            final(self)@.inv(),
    {
        match self.begin(EncoderState::Initialized) {
            Some(e) => Err(e),
            None => {
                self.enter(EncoderState::Closed, Phase::Submitting);
                Ok(Request::EndOfInput)
            },
        }
    }

    /// Takes the driver's reply to the outstanding request and answers with
    /// the next request, with [`Request::Finished`] where the operation is
    /// complete, or with the error that ended it.
    pub fn resume(&mut self, reply: Reply) -> (answer: Result<Request, EncoderError>)
        ensures
            (final(self)@, answer_view(answer)) == old(self)@.resume(reply@),
            final(self)@.inv(),
    {
        proof {
            use_type_invariant(&*self);
        }
        match (self.phase, reply) {
            (Phase::Configuring { channels }, Reply::Configured { code }) => {
                if code == 0 {
                    *self = OggVorbisEncoder {
                        state: EncoderState::Initialized,
                        phase: Phase::Opening,
                        serial: self.serial,
                        channels,
                        file_size: self.file_size,
                        written: self.written,
                        pending: self.pending,
                    };
                    Ok(Request::OpenStream { serial: self.serial })
                } else {
                    self.phase = Phase::Idle;
                    Err(EncoderError::CodecRejected(code))
                }
            },
            (Phase::Opening, Reply::Completed) => {
                self.phase = Phase::Pages { forced: true };
                Ok(Request::NextPage { forced: true })
            },
            (Phase::Submitting, Reply::Completed) => {
                self.phase = Phase::Blocks;
                Ok(Request::NextBlock)
            },
            (Phase::Blocks, Reply::Block { code }) => {
                if code == 1 {
                    self.phase = Phase::Analysing;
                    Ok(Request::AnalyseBlock)
                } else {
                    self.phase = Phase::Idle;
                    Ok(Request::Finished)
                }
            },
            (Phase::Analysing, Reply::Completed) => {
                self.phase = Phase::Packets;
                Ok(Request::NextPacket)
            },
            (Phase::Packets, Reply::Packet { code }) => {
                if code != 0 {
                    self.phase = Phase::Queueing;
                    Ok(Request::QueuePacket)
                } else {
                    self.phase = Phase::Blocks;
                    Ok(Request::NextBlock)
                }
            },
            (Phase::Queueing, Reply::Completed) => {
                self.phase = Phase::Pages { forced: false };
                Ok(Request::NextPage { forced: false })
            },
            (Phase::Pages { forced }, Reply::Page(None)) => Ok(self.leave_pages(forced)),
            (Phase::Pages { forced }, Reply::Page(Some(page))) => {
                let bytes = page.to_bytes();
                let last = page.is_end_of_stream();
                let len: usize = bytes.len();
                match count_after(self.file_size, len) {
                    Err(e) => {
                        self.phase = Phase::Idle;
                        Err(e)
                    },
                    Ok(_) => {
                        *self = OggVorbisEncoder {
                            state: self.state,
                            phase: Phase::Writing { forced, last, len },
                            serial: self.serial,
                            channels: self.channels,
                            file_size: self.file_size,
                            written: self.written,
                            pending: Ghost(Some(page@)),
                        };
                        Ok(Request::Write { bytes })
                    },
                }
            },
            (Phase::Writing { forced, last, len }, Reply::Written { ok }) => {
                if !ok {
                    *self = OggVorbisEncoder {
                        state: self.state,
                        phase: Phase::Idle,
                        serial: self.serial,
                        channels: self.channels,
                        file_size: self.file_size,
                        written: self.written,
                        pending: Ghost(None),
                    };
                    Err(EncoderError::Io)
                } else {
                    proof {
                        lemma_total_len_push(self.written@, self.pending@.unwrap());
                    }
                    *self = OggVorbisEncoder {
                        state: self.state,
                        phase: if last {
                            if forced {
                                Phase::Idle
                            } else {
                                Phase::Packets
                            }
                        } else {
                            Phase::Pages { forced }
                        },
                        serial: self.serial,
                        channels: self.channels,
                        file_size: self.file_size + len,
                        written: Ghost(self.written@.push(self.pending@.unwrap())),
                        pending: Ghost(None),
                    };
                    if last {
                        if forced {
                            Ok(Request::Finished)
                        } else {
                            Ok(Request::NextPacket)
                        }
                    } else {
                        Ok(Request::NextPage { forced })
                    }
                }
            },
            _ => Err(EncoderError::OutOfTurn),
        }
    }

    fn leave_pages(&mut self, forced: bool) -> (request: Request)
        requires
            old(self)@.phase == (Phase::Pages { forced }),
        ensures
            (final(self)@, Ok::<RequestView, EncoderError>(request@)) == old(self)@.after_pages(
                forced,
            ),
            final(self)@.inv(),
    {
        proof {
            use_type_invariant(&*self);
        }
        if forced {
            self.phase = Phase::Idle;
            Request::Finished
        } else {
            self.phase = Phase::Packets;
            Request::NextPacket
        }
    }

    fn enter(&mut self, state: EncoderState, phase: Phase)
        requires
            (EncoderModel { state, phase, ..old(self)@ }).inv(),
        ensures
            final(self)@ == (EncoderModel { state, phase, ..old(self)@ }),
    {
        proof {
            use_type_invariant(&*self);
        }
        *self = OggVorbisEncoder {
            state,
            phase,
            serial: self.serial,
            channels: self.channels,
            file_size: self.file_size,
            written: self.written,
            pending: self.pending,
        };
    }
}

} // verus!
