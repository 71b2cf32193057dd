//! The words the encoder and its driver exchange.
//!
//! A [`Request`] names one piece of outside work that holds no decision of
//! its own. The driver performs it and answers with the matching [`Reply`].

use crate::page::{Page, PageView};
use crate::samples::planes_view;
use crate::setup::CodecSetup;
use vstd::prelude::*;

verus! {

/// What the encoder asks of its driver next.
#[derive(Debug)]
pub enum Request {
    /// Nothing: the operation is complete.
    Finished,
    /// Prepare the codec's info and comment records, add the encoder comment
    /// and configure the codec. Answer with [`Reply::Configured`].
    Configure(CodecSetup),
    /// Start the analysis, open the framer under this stream identity, and
    /// queue the three header packets. Answer with [`Reply::Completed`].
    OpenStream { serial: u32 },
    /// Hand one batch to the codec, one plane per channel, every sample
    /// divided by the full scale. Answer with [`Reply::Completed`].
    Submit { planes: Vec<Vec<i16>> },
    /// Tell the codec that no more samples follow. Answer with
    /// [`Reply::Completed`].
    EndOfInput,
    /// Ask the codec for the next analysis block. Answer with
    /// [`Reply::Block`].
    NextBlock,
    /// Analyse the block and run the bitrate management pass over it. Answer
    /// with [`Reply::Completed`].
    AnalyseBlock,
    /// Ask the bitrate management for the next packet. Answer with
    /// [`Reply::Packet`].
    NextPacket,
    /// Queue the packet in the framer. Answer with [`Reply::Completed`].
    QueuePacket,
    /// Ask the framer for a page: whatever is pending if `forced`, else only
    /// a page that the framer considers ready. Answer with [`Reply::Page`].
    NextPage { forced: bool },
    /// Append these bytes to the sink. Answer with [`Reply::Written`].
    Write { bytes: Vec<u8> },
}

/// The mathematical content of a [`Request`].
pub enum RequestView {
    Finished,
    Configure(CodecSetup),
    OpenStream { serial: u32 },
    Submit { planes: Seq<Seq<i16>> },
    EndOfInput,
    NextBlock,
    AnalyseBlock,
    NextPacket,
    QueuePacket,
    NextPage { forced: bool },
    Write { bytes: Seq<u8> },
}

impl View for Request {
    type V = RequestView;

    open spec fn view(&self) -> RequestView {
        match *self {
            Request::Finished => RequestView::Finished,
            Request::Configure(setup) => RequestView::Configure(setup),
            Request::OpenStream { serial } => RequestView::OpenStream { serial },
            Request::Submit { planes } => RequestView::Submit { planes: planes_view(planes) },
            Request::EndOfInput => RequestView::EndOfInput,
            Request::NextBlock => RequestView::NextBlock,
            Request::AnalyseBlock => RequestView::AnalyseBlock,
            Request::NextPacket => RequestView::NextPacket,
            Request::QueuePacket => RequestView::QueuePacket,
            Request::NextPage { forced } => RequestView::NextPage { forced },
            Request::Write { bytes } => RequestView::Write { bytes: bytes@ },
        }
    }
}

/// What the driver reports back.
#[derive(Debug)]
pub enum Reply {
    /// The codec's answer to a configuration: zero where it accepted.
    Configured { code: i32 },
    /// The work was done; there is nothing to report.
    Completed,
    /// The codec's answer to the request for a block: one where a block is
    /// ready.
    Block { code: i32 },
    /// The answer to the request for a packet: zero where there is none.
    Packet { code: i32 },
    /// The page the framer handed out, if it had one.
    Page(Option<Page>),
    /// Whether the sink took all the bytes.
    Written { ok: bool },
}

/// The mathematical content of a [`Reply`].
pub enum ReplyView {
    Configured { code: i32 },
    Completed,
    Block { code: i32 },
    Packet { code: i32 },
    Page(Option<PageView>),
    Written { ok: bool },
}

impl View for Reply {
    type V = ReplyView;

    open spec fn view(&self) -> ReplyView {
        match *self {
            Reply::Configured { code } => ReplyView::Configured { code },
            Reply::Completed => ReplyView::Completed,
            Reply::Block { code } => ReplyView::Block { code },
            Reply::Packet { code } => ReplyView::Packet { code },
            Reply::Page(Some(page)) => ReplyView::Page(Some(page@)),
            Reply::Page(None) => ReplyView::Page(None),
            Reply::Written { ok } => ReplyView::Written { ok },
        }
    }
}

impl ReplyView {
    /// A reply is sound where the page it carries, if any, is valid.
    pub open spec fn sound(self) -> bool {
        self matches ReplyView::Page(Some(page)) ==> page.valid()
    }
}

} // verus!
