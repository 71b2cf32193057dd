//! What holds of every encoder, whatever is called on it and whatever the
//! driver replies.

use crate::error::EncoderError;
use crate::model::{
    lemma_stream_bytes_push, lemma_stream_len, lemma_total_len_push, stream_bytes, total_len,
    EncoderModel, Outcome, Phase,
};
use crate::page::PageView;
use crate::protocol::{ReplyView, RequestView};
use crate::samples::{deinterleave, frame_count, MAX_FRAMES};
use crate::setup::{supported_channels, CodecSetup, Quality};
use vstd::prelude::*;

verus! {

/// One call on an encoder, with its arguments.
pub enum Call {
    /// `initialize` or `initialize_with_vbr`, with the setup that the
    /// arguments make, if they make one.
    Initialize { channels: usize, setup: Option<CodecSetup> },
    /// `write_samples`.
    WriteSamples { samples: Seq<i16> },
    /// `close`.
    Close,
    /// `resume`.
    Resume { reply: ReplyView },
}

impl Call {
    /// A call is sound where it could have been made: a setup is only made
    /// for a supported channel count, and a page in a reply is valid.
    pub open spec fn sound(self) -> bool {
        match self {
            Call::Initialize { channels, setup } => setup is Some ==> supported_channels(channels),
            Call::Resume { reply } => reply.sound(),
            _ => true,
        }
    }
}

/// The outcome of one call.
pub open spec fn apply(m: EncoderModel, call: Call) -> Outcome {
    match call {
        Call::Initialize { channels, setup } => m.initialize(channels, setup),
        Call::WriteSamples { samples } => m.write_samples(samples),
        Call::Close => m.close(),
        Call::Resume { reply } => m.resume(reply),
    }
}

/// The encoder after a sequence of calls, first call first.
pub open spec fn run(m: EncoderModel, calls: Seq<Call>) -> EncoderModel
    decreases calls.len(),
{
    if calls.len() == 0 {
        m
    } else {
        apply(run(m, calls.drop_last()), calls.last()).0
    }
}

/// Every call in the sequence is sound.
pub open spec fn all_sound(calls: Seq<Call>) -> bool {
    forall|i: int| 0 <= i < calls.len() ==> (#[trigger] calls[i]).sound()
}

/// A new encoder meets the invariant.
pub proof fn lemma_invariant_fresh(serial: u32)
    ensures
        EncoderModel::fresh(serial).inv(),
{
    assert(total_len(EncoderModel::fresh(serial).written) == 0);
}

/// Every call keeps the invariant.
pub proof fn lemma_invariant_step(m: EncoderModel, call: Call)
    requires
        m.inv(),
        call.sound(),
    ensures
        apply(m, call).0.inv(),
{
    let next = apply(m, call).0;
    match call {
        Call::Resume { reply } => {
            match (m.phase, reply) {
                (Phase::Writing { .. }, ReplyView::Written { ok }) => {
                    if ok {
                        lemma_total_len_push(m.written, m.pending.unwrap());
                        assert forall|i: int| 0 <= i < next.written.len() implies (
                        #[trigger] next.written[i]).valid() by {
                            if i < m.written.len() {
                                assert(next.written[i] == m.written[i]);
                            }
                        }
                    }
                },
                _ => {},
            }
        },
        _ => {},
    }
}

/// A sequence of sound calls without its last call is sound.
proof fn lemma_sound_prefix(calls: Seq<Call>)
    requires
        all_sound(calls),
        calls.len() > 0,
    ensures
        all_sound(calls.drop_last()),
{
    let prefix = calls.drop_last();
    assert forall|i: int| 0 <= i < prefix.len() implies (#[trigger] prefix[i]).sound() by {
        assert(prefix[i] == calls[i]);
    }
}

/// The invariant holds after any sequence of calls.
pub proof fn lemma_invariant_always(m: EncoderModel, calls: Seq<Call>)
    requires
        m.inv(),
        all_sound(calls),
    ensures
        run(m, calls).inv(),
    decreases calls.len(),
{
    if calls.len() > 0 {
        lemma_sound_prefix(calls);
        lemma_invariant_always(m, calls.drop_last());
        lemma_invariant_step(run(m, calls.drop_last()), calls.last());
    }
}

/// The stream's life runs one way: a call leaves the state as it is or moves
/// it to the next one, never back and never past one.
pub proof fn lemma_lifecycle_step(m: EncoderModel, call: Call)
    requires
        m.inv(),
    ensures
        apply(m, call).0.state.rank() == m.state.rank() || apply(m, call).0.state.rank()
            == m.state.rank() + 1,
        apply(m, call).1 is Err ==> apply(m, call).0.state == m.state,
{
}

/// Over any sequence of calls the state never goes back.
pub proof fn lemma_lifecycle_never_reverses(m: EncoderModel, calls: Seq<Call>)
    requires
        m.inv(),
        all_sound(calls),
    ensures
        m.state.rank() <= run(m, calls).state.rank(),
    decreases calls.len(),
{
    if calls.len() > 0 {
        lemma_sound_prefix(calls);
        lemma_lifecycle_never_reverses(m, calls.drop_last());
        lemma_invariant_always(m, calls.drop_last());
        lemma_lifecycle_step(run(m, calls.drop_last()), calls.last());
    }
}

/// With no operation under way, each call is answered as the state of the
/// stream says: a created stream can only be initialized, an initialized one
/// takes samples and can be closed, a closed one refuses everything.
pub proof fn lemma_lifecycle_table(
    m: EncoderModel,
    channels: usize,
    setup: CodecSetup,
    samples: Seq<i16>,
)
    requires
        m.phase is Idle,
    ensures
        m.state is Created ==> {
            &&& m.initialize(channels, Some(setup)).1 == Ok::<RequestView, EncoderError>(
                RequestView::Configure(setup),
            )
            &&& m.initialize(channels, None) == (m, Err::<RequestView, EncoderError>(
                EncoderError::UnsupportedChannels,
            ))
            &&& m.write_samples(samples) == (m, Err::<RequestView, EncoderError>(
                EncoderError::NotInitialized,
            ))
            &&& m.close() == (m, Err::<RequestView, EncoderError>(EncoderError::NotInitialized))
        },
        m.state is Initialized ==> {
            &&& m.initialize(channels, Some(setup)) == (m, Err::<RequestView, EncoderError>(
                EncoderError::AlreadyInitialized,
            ))
            &&& frame_count(samples.len(), m.channels as nat) <= MAX_FRAMES ==> m.write_samples(
                samples,
            ).1 == Ok::<RequestView, EncoderError>(
                RequestView::Submit { planes: deinterleave(samples, m.channels as nat) },
            )
            &&& frame_count(samples.len(), m.channels as nat) > MAX_FRAMES ==> m.write_samples(
                samples,
            ) == (m, Err::<RequestView, EncoderError>(EncoderError::BatchTooLarge))
            &&& m.write_samples(samples).0.state is Initialized
            &&& m.close().1 == Ok::<RequestView, EncoderError>(RequestView::EndOfInput)
            &&& m.close().0.state is Closed
        },
        m.state is Closed ==> {
            &&& m.initialize(channels, Some(setup)) == (m, Err::<RequestView, EncoderError>(
                EncoderError::AlreadyClosed,
            ))
            &&& m.write_samples(samples) == (m, Err::<RequestView, EncoderError>(
                EncoderError::AlreadyClosed,
            ))
            &&& m.close() == (m, Err::<RequestView, EncoderError>(EncoderError::AlreadyClosed))
        },
{
}

/// Samples offered before the stream is initialized are refused as a
/// violation of the lifecycle, and the encoder is left as it was: nothing is
/// asked of the sink and nothing counts as written.
pub proof fn lemma_write_before_initialize(m: EncoderModel, samples: Seq<i16>)
    requires
        m.state is Created,
    ensures
        m.write_samples(samples) == (m, Err::<RequestView, EncoderError>(
            EncoderError::NotInitialized,
        )),
        EncoderError::NotInitialized.is_lifecycle(),
{
}

/// Once a stream is closed, initializing it, writing samples and closing it
/// are all refused as violations of the lifecycle and change nothing.
pub proof fn lemma_closed_refuses(
    m: EncoderModel,
    channels: usize,
    setup: Option<CodecSetup>,
    samples: Seq<i16>,
)
    requires
        m.state is Closed,
    ensures
        m.initialize(channels, setup) == (m, Err::<RequestView, EncoderError>(
            EncoderError::AlreadyClosed,
        )),
        m.write_samples(samples) == (m, Err::<RequestView, EncoderError>(
            EncoderError::AlreadyClosed,
        )),
        m.close() == (m, Err::<RequestView, EncoderError>(EncoderError::AlreadyClosed)),
        EncoderError::AlreadyClosed.is_lifecycle(),
{
}

/// A closed stream stays closed over any sequence of calls.
pub proof fn lemma_closed_is_final(m: EncoderModel, calls: Seq<Call>)
    requires
        m.inv(),
        all_sound(calls),
        m.state is Closed,
    ensures
        run(m, calls).state is Closed,
{
    lemma_lifecycle_never_reverses(m, calls);
}

/// A closed stream with no operation under way refuses every call and is
/// never changed again.
pub proof fn lemma_closed_and_idle_is_frozen(m: EncoderModel, calls: Seq<Call>)
    requires
        m.state is Closed,
        m.phase is Idle,
    ensures
        run(m, calls) == m,
        forall|i: int| 0 <= i < calls.len() ==> (#[trigger] apply(m, calls[i])).1 is Err,
    decreases calls.len(),
{
    if calls.len() > 0 {
        lemma_closed_and_idle_is_frozen(m, calls.drop_last());
    }
}

/// The stream identity is the same after any sequence of calls.
pub proof fn lemma_identity_is_constant(m: EncoderModel, calls: Seq<Call>)
    ensures
        run(m, calls).serial == m.serial,
    decreases calls.len(),
{
    if calls.len() > 0 {
        lemma_identity_is_constant(m, calls.drop_last());
    }
}

/// The channel count of an initialized stream is one or two and is the same
/// after any sequence of calls.
pub proof fn lemma_channels_are_fixed(m: EncoderModel, calls: Seq<Call>)
    requires
        m.inv(),
        all_sound(calls),
        m.state !is Created,
    ensures
        supported_channels(m.channels),
        run(m, calls).channels == m.channels,
    decreases calls.len(),
{
    if calls.len() > 0 {
        lemma_sound_prefix(calls);
        lemma_channels_are_fixed(m, calls.drop_last());
        lemma_lifecycle_never_reverses(m, calls.drop_last());
        lemma_invariant_always(m, calls.drop_last());
    }
}

/// The byte count is the length of what the sink has taken: the lengths of
/// the headers and bodies of all pages written, no more and no less.
pub proof fn lemma_bytes_written_is_sink_length(m: EncoderModel)
    ensures
        m.bytes_written() == m.sink().len(),
        m.bytes_written() == total_len(m.written),
        m.sink() == stream_bytes(m.written),
{
    lemma_stream_len(m.written);
}

/// The sink is asked to take exactly the page that the framer handed out,
/// header first, and that page is the one awaited afterwards.
pub proof fn lemma_write_request_is_the_page(m: EncoderModel, reply: ReplyView, bytes: Seq<u8>)
    requires
        m.resume(reply).1 == Ok::<RequestView, EncoderError>(RequestView::Write { bytes }),
    ensures
        reply matches ReplyView::Page(Some(page)) && bytes == page.header + page.body
            && m.resume(reply).0.pending == Some(page) && m.resume(reply).0.phase is Writing,
        m.resume(reply).0.written == m.written,
{
}

/// A call changes what counts as written in one way only: when the sink
/// reports that it took the awaited page, that page is added at the end. A
/// failed write, and every other call, leaves the record as it is.
pub proof fn lemma_written_grows_by_taken_pages(m: EncoderModel, call: Call)
    ensures
        ({
            let next = apply(m, call).0;
            let taken = Call::Resume { reply: ReplyView::Written { ok: true } };
            if m.phase is Writing && call == taken {
                &&& next.written == m.written.push(m.pending.unwrap())
                &&& next.sink() == m.sink() + m.pending.unwrap().bytes()
                &&& next.bytes_written() == m.bytes_written() + m.pending.unwrap().len()
            } else {
                next.written == m.written
            }
        }),
{
    let taken = Call::Resume { reply: ReplyView::Written { ok: true } };
    if m.phase is Writing && call == taken {
        lemma_total_len_push(m.written, m.pending.unwrap());
        lemma_stream_bytes_push(m.written, m.pending.unwrap());
    }
}

/// The pages that the sink reported as taken in the course of some calls, in
/// the order of the reports.
pub open spec fn taken(m: EncoderModel, calls: Seq<Call>) -> Seq<PageView>
    decreases calls.len(),
{
    if calls.len() == 0 {
        Seq::empty()
    } else {
        let before = run(m, calls.drop_last());
        let earlier = taken(m, calls.drop_last());
        if before.phase is Writing && calls.last() == (Call::Resume {
            reply: ReplyView::Written { ok: true },
        }) {
            earlier.push(before.pending.unwrap())
        } else {
            earlier
        }
    }
}

/// After any sequence of calls, what counts as written is what was written
/// before and then the pages that the sink has taken since, each once and
/// in order. For a new encoder the byte count is therefore the sum of the
/// lengths of all pages that the sink ever took.
pub proof fn lemma_written_is_what_the_sink_took(m: EncoderModel, calls: Seq<Call>)
    ensures
        run(m, calls).written == m.written + taken(m, calls),
        m.written.len() == 0 ==> run(m, calls).bytes_written() == total_len(taken(m, calls))
            && run(m, calls).sink() == stream_bytes(taken(m, calls)),
    decreases calls.len(),
{
    if calls.len() == 0 {
        assert(m.written =~= m.written + Seq::<PageView>::empty());
    } else {
        let before = run(m, calls.drop_last());
        let earlier = taken(m, calls.drop_last());
        lemma_written_is_what_the_sink_took(m, calls.drop_last());
        lemma_written_grows_by_taken_pages(before, calls.last());
        if before.phase is Writing && calls.last() == (Call::Resume {
            reply: ReplyView::Written { ok: true },
        }) {
            assert((m.written + earlier).push(before.pending.unwrap()) =~= m.written
                + earlier.push(before.pending.unwrap()));
        }
    }
    if m.written.len() == 0 {
        assert(m.written + taken(m, calls) =~= taken(m, calls));
    }
}

/// Over any sequence of calls the sink only grows: what it held before is
/// what it starts with afterwards.
pub proof fn lemma_sink_only_grows(m: EncoderModel, calls: Seq<Call>)
    ensures
        m.sink().len() <= run(m, calls).sink().len(),
        run(m, calls).sink().subrange(0, m.sink().len() as int) == m.sink(),
        m.bytes_written() <= run(m, calls).bytes_written(),
    decreases calls.len(),
{
    lemma_stream_len(m.written);
    lemma_stream_len(run(m, calls).written);
    if calls.len() == 0 {
        assert(m.sink().subrange(0, m.sink().len() as int) =~= m.sink());
    } else {
        let before = run(m, calls.drop_last());
        lemma_sink_only_grows(m, calls.drop_last());
        lemma_written_grows_by_taken_pages(before, calls.last());
        lemma_stream_len(before.written);
        assert(run(m, calls).sink().subrange(0, m.sink().len() as int) =~= before.sink().subrange(
            0,
            m.sink().len() as int,
        ));
    }
}

/// No page is asked for, handed to the sink or counted before the codec has
/// accepted a configuration: while the stream is in its first state nothing
/// is written, and no answer asks for a page or a write.
pub proof fn lemma_nothing_before_headers(m: EncoderModel, call: Call)
    requires
        m.inv(),
        m.state is Created,
    ensures
        m.written.len() == 0,
        m.bytes_written() == 0,
        !(apply(m, call).1 matches Ok(RequestView::NextPage { .. })),
        !(apply(m, call).1 matches Ok(RequestView::Write { .. })),
        !(apply(m, call).1 matches Ok(RequestView::Submit { .. })),
{
}

/// The header pages come first and are forced out: when the stream has been
/// opened, the encoder asks for pages with `forced` set until there is none,
/// and only then is the stream ready for samples.
pub proof fn lemma_headers_are_flushed(m: EncoderModel)
    requires
        m.inv(),
        m.phase is Opening,
    ensures
        m.resume(ReplyView::Completed).1 == Ok::<RequestView, EncoderError>(
            RequestView::NextPage { forced: true },
        ),
        m.resume(ReplyView::Completed).0.resume(ReplyView::Page(None)).1 == Ok::<
            RequestView,
            EncoderError,
        >(RequestView::Finished),
        m.resume(ReplyView::Completed).0.resume(ReplyView::Page(None)).0 == m.at(Phase::Idle),
        m.state is Initialized,
{
}

/// For one or two channels and any sample rate, there is a setup in either
/// mode, and a new encoder accepts `initialize` with it; once the codec has
/// accepted and the headers are out, it accepts `close` at once and is closed
/// from then on.
pub proof fn lemma_initialize_then_close(
    serial: u32,
    channels: usize,
    sample_rate: u32,
    nominal_bitrate: u32,
    min_bitrate: Option<u32>,
    max_bitrate: Option<u32>,
    quality: Quality,
    vbr: bool,
)
    requires
        supported_channels(channels),
    ensures
        ({
            let setup = if vbr {
                CodecSetup::vbr_spec(channels, sample_rate, quality)
            } else {
                CodecSetup::managed_spec(
                    channels,
                    sample_rate,
                    nominal_bitrate,
                    min_bitrate,
                    max_bitrate,
                )
            };
            let asked = EncoderModel::fresh(serial).initialize(channels, setup);
            let accepted = asked.0.resume(ReplyView::Configured { code: 0 });
            let opened = accepted.0.resume(ReplyView::Completed);
            let ready = opened.0.resume(ReplyView::Page(None));
            let closing = ready.0.close();
            &&& setup is Some
            &&& asked.1 == Ok::<RequestView, EncoderError>(RequestView::Configure(setup.unwrap()))
            &&& accepted.1 == Ok::<RequestView, EncoderError>(RequestView::OpenStream { serial })
            &&& opened.1 == Ok::<RequestView, EncoderError>(
                RequestView::NextPage { forced: true },
            )
            &&& ready.1 == Ok::<RequestView, EncoderError>(RequestView::Finished)
            &&& ready.0.state is Initialized
            &&& ready.0.channels == channels
            &&& closing.1 == Ok::<RequestView, EncoderError>(RequestView::EndOfInput)
            &&& closing.0.state is Closed
        }),
{
}

/// The codec is configured once: it is asked to configure only for a stream
/// in its first state with no operation under way, and never again once it
/// has accepted.
pub proof fn lemma_configured_once(m: EncoderModel, call: Call)
    requires
        m.inv(),
    ensures
        apply(m, call).1 matches Ok(RequestView::Configure(_)) ==> m.state is Created
            && m.phase is Idle && call is Initialize,
        apply(m, call).1 matches Ok(RequestView::OpenStream { .. }) ==> m.state is Created
            && apply(m, call).0.state is Initialized,
        m.state !is Created ==> !(apply(m, call).1 matches Ok(RequestView::Configure(_)))
            && !(apply(m, call).1 matches Ok(RequestView::OpenStream { .. })),
{
}

/// An operation ends with no reply awaited: after the answer that says it is
/// finished, and after every error that a reply brings about, the encoder is
/// ready for the next operation. A call out of turn leaves it as it was.
pub proof fn lemma_operation_ends_idle(m: EncoderModel, call: Call)
    requires
        m.inv(),
    ensures
        apply(m, call).1 == Ok::<RequestView, EncoderError>(RequestView::Finished) ==> apply(
            m,
            call,
        ).0.phase is Idle,
        call is Resume && apply(m, call).1 is Err ==> (apply(m, call).0.phase is Idle || (apply(
            m,
            call,
        ).1 == Err::<RequestView, EncoderError>(EncoderError::OutOfTurn) && apply(m, call).0
            == m)),
        !(call is Resume) && apply(m, call).1 is Err ==> apply(m, call).0 == m,
{
}

/// A batch that is handed on has one plane for each channel of the stream,
/// all of one length, and that length is a count the codec can take.
pub proof fn lemma_submitted_planes_fit(
    m: EncoderModel,
    samples: Seq<i16>,
    planes: Seq<Seq<i16>>,
)
    requires
        m.inv(),
        m.write_samples(samples).1 == Ok::<RequestView, EncoderError>(
            RequestView::Submit { planes },
        ),
    ensures
        planes.len() == m.channels,
        planes.len() == 1 || planes.len() == 2,
        forall|c: int|
            0 <= c < planes.len() ==> (#[trigger] planes[c]).len() == frame_count(
                samples.len(),
                m.channels as nat,
            ),
        frame_count(samples.len(), m.channels as nat) <= MAX_FRAMES,
{
}

/// A packet is queued in the framer exactly when the codec has reported one:
/// each packet reported is queued once, and nothing else is.
pub proof fn lemma_packets_are_queued_once(m: EncoderModel, call: Call)
    ensures
        apply(m, call).1 == Ok::<RequestView, EncoderError>(RequestView::QueuePacket) <==> (
        m.phase is Packets && (call matches Call::Resume { reply: ReplyView::Packet { code } }
            && code != 0)),
        m.phase is Queueing ==> apply(m, Call::Resume { reply: ReplyView::Completed }).1 == Ok::<
            RequestView,
            EncoderError,
        >(RequestView::NextPage { forced: false }),
{
}

/// A run of pages ends with the page that carries the end-of-stream flag:
/// once the sink has taken it, no further page is asked for in that run.
pub proof fn lemma_stops_after_last_page(m: EncoderModel)
    requires
        m.inv(),
        m.phase matches Phase::Writing { last, .. } && last,
    ensures
        m.pending.unwrap().end_of_stream(),
        !(m.resume(ReplyView::Written { ok: true }).1 matches Ok(RequestView::NextPage { .. })),
        m.resume(ReplyView::Written { ok: true }).1 is Ok,
{
}

} // verus!
