//! The encoder as a state machine over mathematical values.
//!
//! [`EncoderModel`] is what an encoder is, apart from how it is stored. Each
//! operation of the encoder is a function from a model and its arguments to
//! the next model and the answer; the executable encoder is proved to compute
//! exactly these functions.

use crate::error::EncoderError;
use crate::page::PageView;
use crate::protocol::{ReplyView, RequestView};
use crate::samples::{deinterleave, frame_count, MAX_FRAMES};
use crate::setup::{supported_channels, CodecSetup};
use vstd::prelude::*;

verus! {

/// Where a stream stands in its life. The order is fixed: created, then
/// initialized, then closed.
#[derive(Clone, Copy, Debug, PartialEq, Eq, Structural)]
pub enum EncoderState {
    Created,
    Initialized,
    Closed,
}

impl EncoderState {
    /// Position of the state in the order of a stream's life.
    pub open spec fn rank(self) -> nat {
        match self {
            EncoderState::Created => 0,
            EncoderState::Initialized => 1,
            EncoderState::Closed => 2,
        }
    }
}

/// Which reply the encoder is waiting for.
#[derive(Clone, Copy, Debug, PartialEq, Eq, Structural)]
pub enum Phase {
    /// None: no operation is under way.
    Idle,
    /// The codec's verdict on a configuration for this many channels.
    Configuring { channels: usize },
    /// Word that the stream is open and the header packets are queued.
    Opening,
    /// Word that the codec took a batch, or the end of input.
    Submitting,
    /// The codec's answer on the next block.
    Blocks,
    /// Word that the block went through analysis and bitrate management.
    Analysing,
    /// The answer on the next packet.
    Packets,
    /// Word that the packet is queued in the framer.
    Queueing,
    /// A page, or word that there is none.
    Pages { forced: bool },
    /// Word on whether the sink took a page of `len` bytes; `last` says that
    /// the page ends the stream.
    Writing { forced: bool, last: bool, len: usize },
}

/// Sum of the lengths of some pages.
pub open spec fn total_len(pages: Seq<PageView>) -> nat
    decreases pages.len(),
{
    if pages.len() == 0 {
        0
    } else {
        total_len(pages.drop_last()) + pages.last().len()
    }
}

/// The bytes of some pages, one page after the other.
pub open spec fn stream_bytes(pages: Seq<PageView>) -> Seq<u8>
    decreases pages.len(),
{
    if pages.len() == 0 {
        Seq::empty()
    } else {
        stream_bytes(pages.drop_last()) + pages.last().bytes()
    }
}

/// An encoder as a mathematical value.
pub struct EncoderModel {
    /// Where the stream stands in its life.
    pub state: EncoderState,
    /// The reply that is awaited.
    pub phase: Phase,
    /// The stream identity.
    pub serial: u32,
    /// The channel count; it means something once the stream is initialized.
    pub channels: usize,
    /// The pages that the sink has taken, oldest first.
    pub written: Seq<PageView>,
    /// The page that the sink was asked to take and has not answered for.
    pub pending: Option<PageView>,
}

/// A model paired with the answer an operation gives.
pub type Outcome = (EncoderModel, Result<RequestView, EncoderError>);

impl EncoderModel {
    /// A new encoder: created, idle, nothing written.
    pub open spec fn fresh(serial: u32) -> EncoderModel {
        EncoderModel {
            state: EncoderState::Created,
            phase: Phase::Idle,
            serial,
            channels: 0,
            written: Seq::empty(),
            pending: None,
        }
    }

    /// Number of bytes the sink has taken.
    pub open spec fn bytes_written(self) -> nat {
        total_len(self.written)
    }

    /// Everything the sink has taken, in order.
    pub open spec fn sink(self) -> Seq<u8> {
        stream_bytes(self.written)
    }

    /// Whether the header pages are on their way out: the stream is being
    /// opened, or its pages are being forced out.
    pub open spec fn heading(self) -> bool {
        match self.phase {
            Phase::Opening => true,
            Phase::Pages { forced } => forced,
            Phase::Writing { forced, .. } => forced,
            _ => false,
        }
    }

    /// Whether the page awaited is one of `len` bytes that ends the stream or
    /// not as `last` says, and still fits the byte count.
    pub open spec fn awaits(self, len: usize, last: bool) -> bool {
        &&& self.pending matches Some(page)
        &&& page.valid()
        &&& page.len() == len
        &&& page.end_of_stream() == last
        &&& total_len(self.written) + len <= usize::MAX
    }

    /// What holds of every encoder at all times.
    pub open spec fn inv(self) -> bool {
        &&& total_len(self.written) <= usize::MAX
        &&& forall|i: int| 0 <= i < self.written.len() ==> (#[trigger] self.written[i]).valid()
        &&& self.state is Created ==> self.written.len() == 0
        &&& self.state is Created ==> self.phase is Idle || self.phase is Configuring
        &&& self.phase is Configuring ==> self.state is Created
        &&& self.phase matches Phase::Configuring { channels } ==> supported_channels(channels)
        &&& self.state !is Created ==> supported_channels(self.channels)
        &&& self.heading() ==> self.state is Initialized
        &&& self.phase matches Phase::Writing { len, last, .. } ==> self.awaits(len, last)
        &&& self.phase !is Writing ==> self.pending is None
    }

    /// The same encoder, waiting for something else.
    pub open spec fn at(self, phase: Phase) -> EncoderModel {
        EncoderModel { phase, ..self }
    }

    /// The answer to a call that the state of the stream forbids, whatever
    /// else holds: none where the state allows the call.
    pub open spec fn refusal(self, allowed: EncoderState) -> Option<EncoderError> {
        if self.state == allowed {
            None
        } else {
            match self.state {
                EncoderState::Created => Some(EncoderError::NotInitialized),
                EncoderState::Initialized => Some(EncoderError::AlreadyInitialized),
                EncoderState::Closed => Some(EncoderError::AlreadyClosed),
            }
        }
    }

    /// Initializing a stream with a setup, or with none where the channel
    /// count is not supported. Only a created, idle stream is configured; its
    /// state changes when the codec has accepted.
    pub open spec fn initialize(self, channels: usize, setup: Option<CodecSetup>) -> Outcome {
        match self.refusal(EncoderState::Created) {
            Some(e) => (self, Err(e)),
            None => if self.phase !is Idle {
                (self, Err(EncoderError::OutOfTurn))
            } else {
                match setup {
                    None => (self, Err(EncoderError::UnsupportedChannels)),
                    Some(s) => (
                        self.at(Phase::Configuring { channels }),
                        Ok(RequestView::Configure(s)),
                    ),
                }
            },
        }
    }

    /// Writing a batch of interleaved samples. Only an initialized, idle
    /// stream takes samples, and no more frames at once than the codec can
    /// count.
    pub open spec fn write_samples(self, samples: Seq<i16>) -> Outcome {
        match self.refusal(EncoderState::Initialized) {
            Some(e) => (self, Err(e)),
            None => if self.phase !is Idle {
                (self, Err(EncoderError::OutOfTurn))
            } else if frame_count(samples.len(), self.channels as nat) > MAX_FRAMES {
                (self, Err(EncoderError::BatchTooLarge))
            } else {
                (
                    self.at(Phase::Submitting),
                    Ok(
                        RequestView::Submit {
                            planes: deinterleave(samples, self.channels as nat),
                        },
                    ),
                )
            },
        }
    }

    /// Closing a stream. Only an initialized, idle stream is closed, and it
    /// is closed from the moment the call is accepted.
    pub open spec fn close(self) -> Outcome {
        match self.refusal(EncoderState::Initialized) {
            Some(e) => (self, Err(e)),
            None => if self.phase !is Idle {
                (self, Err(EncoderError::OutOfTurn))
            } else {
                (
                    EncoderModel {
                        state: EncoderState::Closed,
                        phase: Phase::Submitting,
                        ..self
                    },
                    Ok(RequestView::EndOfInput),
                )
            },
        }
    }

    /// What follows the last page of a run of pages: a forced run ends the
    /// operation, any other run goes back to asking for packets.
    pub open spec fn after_pages(self, forced: bool) -> Outcome {
        if forced {
            (self.at(Phase::Idle), Ok(RequestView::Finished))
        } else {
            (self.at(Phase::Packets), Ok(RequestView::NextPacket))
        }
    }

    /// Taking a reply. A reply that does not answer the outstanding request
    /// is out of turn and changes nothing.
    pub open spec fn resume(self, reply: ReplyView) -> Outcome {
        match (self.phase, reply) {
            (Phase::Configuring { channels }, ReplyView::Configured { code }) => if code == 0 {
                (
                    EncoderModel {
                        state: EncoderState::Initialized,
                        phase: Phase::Opening,
                        channels,
                        ..self
                    },
                    Ok(RequestView::OpenStream { serial: self.serial }),
                )
            } else {
                (self.at(Phase::Idle), Err(EncoderError::CodecRejected(code)))
            },
            (Phase::Opening, ReplyView::Completed) => (
                self.at(Phase::Pages { forced: true }),
                Ok(RequestView::NextPage { forced: true }),
            ),
            (Phase::Submitting, ReplyView::Completed) => (
                self.at(Phase::Blocks),
                Ok(RequestView::NextBlock),
            ),
            (Phase::Blocks, ReplyView::Block { code }) => if code == 1 {
                (self.at(Phase::Analysing), Ok(RequestView::AnalyseBlock))
            } else {
                (self.at(Phase::Idle), Ok(RequestView::Finished))
            },
            (Phase::Analysing, ReplyView::Completed) => (
                self.at(Phase::Packets),
                Ok(RequestView::NextPacket),
            ),
            (Phase::Packets, ReplyView::Packet { code }) => if code != 0 {
                (self.at(Phase::Queueing), Ok(RequestView::QueuePacket))
            } else {
                (self.at(Phase::Blocks), Ok(RequestView::NextBlock))
            },
            (Phase::Queueing, ReplyView::Completed) => (
                self.at(Phase::Pages { forced: false }),
                Ok(RequestView::NextPage { forced: false }),
            ),
            (Phase::Pages { forced }, ReplyView::Page(None)) => self.after_pages(forced),
            (Phase::Pages { forced }, ReplyView::Page(Some(page))) => if total_len(self.written)
                + page.len() > usize::MAX {
                (self.at(Phase::Idle), Err(EncoderError::ByteCountOverflow))
            } else {
                (
                    EncoderModel {
                        phase: Phase::Writing {
                            forced,
                            last: page.end_of_stream(),
                            len: page.len() as usize,
                        },
                        pending: Some(page),
                        ..self
                    },
                    Ok(RequestView::Write { bytes: page.bytes() }),
                )
            },
            (Phase::Writing { forced, last, .. }, ReplyView::Written { ok }) => if !ok {
                (
                    EncoderModel { phase: Phase::Idle, pending: None, ..self },
                    Err(EncoderError::Io),
                )
            } else {
                let done = EncoderModel {
                    written: self.written.push(self.pending.unwrap()),
                    pending: None,
                    ..self
                };
                if last {
                    done.after_pages(forced)
                } else {
                    (done.at(Phase::Pages { forced }), Ok(RequestView::NextPage { forced }))
                }
            },
            _ => (self, Err(EncoderError::OutOfTurn)),
        }
    }
}

/// The byte count after `len` more bytes, where it can still be held.
pub fn count_after(count: usize, len: usize) -> (next: Result<usize, EncoderError>)
    ensures
        count + len <= usize::MAX ==> next == Ok::<usize, EncoderError>((count + len) as usize),
        count + len > usize::MAX ==> next == Err::<usize, EncoderError>(
            EncoderError::ByteCountOverflow,
        ),
{
    if len > usize::MAX - count {
        Err(EncoderError::ByteCountOverflow)
    } else {
        Ok(count + len)
    }
}

/// Adding a page adds its length to the total.
pub proof fn lemma_total_len_push(pages: Seq<PageView>, page: PageView)
    ensures
        total_len(pages.push(page)) == total_len(pages) + page.len(),
{
    assert(pages.push(page).drop_last() =~= pages);
}

/// Adding a page appends its bytes to the stream.
pub proof fn lemma_stream_bytes_push(pages: Seq<PageView>, page: PageView)
    ensures
        stream_bytes(pages.push(page)) == stream_bytes(pages) + page.bytes(),
{
    assert(pages.push(page).drop_last() =~= pages);
}

/// The stream is as long as its pages together.
pub proof fn lemma_stream_len(pages: Seq<PageView>)
    ensures
        stream_bytes(pages).len() == total_len(pages),
    decreases pages.len(),
{
    if pages.len() > 0 {
        lemma_stream_len(pages.drop_last());
    }
}

} // verus!
