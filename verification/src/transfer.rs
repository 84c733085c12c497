//! The transfer of one object: open, stream the chunks in order, close.
//!
//! Like the copier, a transfer performs no I/O. It asks for one action at a
//! time and takes what came back. Chunks pass through it unchanged, one at a
//! time, so that the object is never held in memory as a whole.

use vstd::prelude::*;
use crate::copy::{Transfer, TransferView};
use crate::entry::{error_kind_of_io, kind_of_io, text_of, ErrorKind, IoErrorKind};

verus! {

/// How a transfer ends.
#[derive(Clone, Copy, Debug, PartialEq, Eq, Structural)]
pub enum TransferOutcome {
    /// Every chunk was written and the sink was closed.
    Done,
    /// The backend failed: the caller returns the error that it reported, of
    /// the given kind, unchanged.
    Propagate(ErrorKind),
    /// Reading the source failed with a low-level I/O error: the caller
    /// reports it under the given kind, with the I/O error's own message.
    Io(ErrorKind),
    /// A reply did not answer the request that was outstanding.
    OutOfTurn,
}

/// What the caller is to do next.
#[derive(Debug)]
pub enum TransferRequest {
    /// Open a reader at `path` on the source backend.
    OpenReader { path: String },
    /// Open a writer at `path` on the destination backend, with the content
    /// type as its metadata where there is one.
    OpenWriter { path: String, content_type: Option<String> },
    /// Turn the reader into a stream of chunks over the whole object.
    OpenStream,
    /// Read the next chunk from the stream.
    ReadChunk,
    /// Write the chunk to the writer.
    WriteChunk(Vec<u8>),
    /// Close the writer.
    Close,
    /// Stop: the transfer has ended.
    Finish(TransferOutcome),
}

/// The mathematical value of a `TransferRequest`.
pub enum TransferRequestView {
    OpenReader { path: Seq<char> },
    OpenWriter { path: Seq<char>, content_type: Option<Seq<char>> },
    OpenStream,
    ReadChunk,
    WriteChunk(Seq<u8>),
    Close,
    Finish(TransferOutcome),
}

impl View for TransferRequest {
    type V = TransferRequestView;

    open spec fn view(&self) -> TransferRequestView {
        match self {
            TransferRequest::OpenReader { path } => TransferRequestView::OpenReader { path: path@ },
            TransferRequest::OpenWriter { path, content_type } => TransferRequestView::OpenWriter {
                path: path@,
                content_type: text_of(*content_type),
            },
            TransferRequest::OpenStream => TransferRequestView::OpenStream,
            TransferRequest::ReadChunk => TransferRequestView::ReadChunk,
            TransferRequest::WriteChunk(chunk) => TransferRequestView::WriteChunk(chunk@),
            TransferRequest::Close => TransferRequestView::Close,
            TransferRequest::Finish(outcome) => TransferRequestView::Finish(*outcome),
        }
    }
}

/// What came back from the request that was outstanding.
#[derive(Debug)]
pub enum TransferReply {
    /// The reader, writer or stream was opened, the chunk written or the
    /// writer closed.
    Completed,
    /// The stream yielded a chunk.
    Chunk(Vec<u8>),
    /// The stream is exhausted.
    End,
    /// The backend failed with an error of this kind.
    Error(ErrorKind),
    /// Reading the stream failed with a low-level I/O error of this kind.
    IoError(IoErrorKind),
}

/// The mathematical value of a `TransferReply`.
pub enum TransferReplyView {
    Completed,
    Chunk(Seq<u8>),
    End,
    Error(ErrorKind),
    IoError(IoErrorKind),
}

impl View for TransferReply {
    type V = TransferReplyView;

    open spec fn view(&self) -> TransferReplyView {
        match self {
            TransferReply::Completed => TransferReplyView::Completed,
            TransferReply::Chunk(chunk) => TransferReplyView::Chunk(chunk@),
            TransferReply::End => TransferReplyView::End,
            TransferReply::Error(kind) => TransferReplyView::Error(*kind),
            TransferReply::IoError(kind) => TransferReplyView::IoError(*kind),
        }
    }
}

/// Where a transfer stands: the request that is outstanding.
pub enum TransferState {
    /// The reader is being opened. The writer's path and content type are
    /// kept for the next request.
    ReaderOpen { destination: Seq<char>, content_type: Option<Seq<char>> },
    /// The writer is being opened.
    WriterOpen,
    /// The stream is being opened.
    StreamOpen,
    /// A chunk is being read.
    Reading,
    /// A chunk is being written.
    Writing,
    /// The writer is being closed.
    Closing,
    /// The transfer has ended.
    Finished { outcome: TransferOutcome },
}

/// The transfer ends with `outcome`.
pub open spec fn end_with(outcome: TransferOutcome) -> (TransferState, TransferRequestView) {
    (TransferState::Finished { outcome }, TransferRequestView::Finish(outcome))
}

/// What becomes of a reply that the outstanding request does not provide
/// for: a backend error is propagated, anything else is out of turn.
pub open spec fn refused(reply: TransferReplyView) -> (TransferState, TransferRequestView) {
    match reply {
        TransferReplyView::Error(kind) => end_with(TransferOutcome::Propagate(kind)),
        _ => end_with(TransferOutcome::OutOfTurn),
    }
}

/// The next state and request for a reply.
pub open spec fn transfer_step(state: TransferState, reply: TransferReplyView) -> (
    TransferState,
    TransferRequestView,
) {
    match state {
        TransferState::ReaderOpen { destination, content_type } => match reply {
            TransferReplyView::Completed => (
                TransferState::WriterOpen,
                TransferRequestView::OpenWriter { path: destination, content_type },
            ),
            _ => refused(reply),
        },
        TransferState::WriterOpen => match reply {
            TransferReplyView::Completed => (
                TransferState::StreamOpen,
                TransferRequestView::OpenStream,
            ),
            _ => refused(reply),
        },
        TransferState::StreamOpen => match reply {
            TransferReplyView::Completed => (
                TransferState::Reading,
                TransferRequestView::ReadChunk,
            ),
            _ => refused(reply),
        },
        TransferState::Reading => match reply {
            TransferReplyView::Chunk(chunk) => (
                TransferState::Writing,
                TransferRequestView::WriteChunk(chunk),
            ),
            TransferReplyView::End => (TransferState::Closing, TransferRequestView::Close),
            TransferReplyView::IoError(kind) => end_with(TransferOutcome::Io(kind_of_io(kind))),
            _ => refused(reply),
        },
        TransferState::Writing => match reply {
            TransferReplyView::Completed => (
                TransferState::Reading,
                TransferRequestView::ReadChunk,
            ),
            _ => refused(reply),
        },
        TransferState::Closing => match reply {
            TransferReplyView::Completed => end_with(TransferOutcome::Done),
            _ => refused(reply),
        },
        TransferState::Finished { outcome } => end_with(outcome),
    }
}

/// How the transfer of an object begins: with the opening of the reader.
pub open spec fn transfer_start(transfer: TransferView) -> (TransferState, TransferRequestView) {
    (
        TransferState::ReaderOpen {
            destination: transfer.destination,
            content_type: transfer.content_type,
        },
        TransferRequestView::OpenReader { path: transfer.source },
    )
}

/// The requests that a transfer issues, one for each of the replies in turn.
pub open spec fn transfer_requests(state: TransferState, replies: Seq<TransferReplyView>) -> Seq<
    TransferRequestView,
>
    decreases replies.len(),
{
    if replies.len() == 0 {
        Seq::<TransferRequestView>::empty()
    } else {
        seq![transfer_step(state, replies[0]).1] + transfer_requests(
            transfer_step(state, replies[0]).0,
            replies.drop_first(),
        )
    }
}

/// Whether the replies take a transfer that has not ended to its successful
/// end, and no further.
pub open spec fn completes(state: TransferState, replies: Seq<TransferReplyView>) -> bool
    decreases replies.len(),
{
    if replies.len() == 0 || state is Finished {
        false
    } else if replies.len() == 1 {
        transfer_step(state, replies[0]).1 == TransferRequestView::Finish(TransferOutcome::Done)
    } else {
        completes(transfer_step(state, replies[0]).0, replies.drop_first())
    }
}

/// The bytes of the chunks among the replies, in order.
pub open spec fn bytes_read(replies: Seq<TransferReplyView>) -> Seq<u8>
    decreases replies.len(),
{
    if replies.len() == 0 {
        Seq::<u8>::empty()
    } else {
        (match replies[0] {
            TransferReplyView::Chunk(chunk) => chunk,
            _ => Seq::<u8>::empty(),
        }) + bytes_read(replies.drop_first())
    }
}

/// The bytes of the chunks among the requests, in order.
pub open spec fn bytes_written(requests: Seq<TransferRequestView>) -> Seq<u8>
    decreases requests.len(),
{
    if requests.len() == 0 {
        Seq::<u8>::empty()
    } else {
        (match requests[0] {
            TransferRequestView::WriteChunk(chunk) => chunk,
            _ => Seq::<u8>::empty(),
        }) + bytes_written(requests.drop_first())
    }
}

/// How many of the requests close the writer.
pub open spec fn closes(requests: Seq<TransferRequestView>) -> nat
    decreases requests.len(),
{
    if requests.len() == 0 {
        0
    } else {
        (if requests[0] is Close {
            1nat
        } else {
            0nat
        }) + closes(requests.drop_first())
    }
}

/// There is one request for each reply.
pub proof fn lemma_transfer_requests_len(state: TransferState, replies: Seq<TransferReplyView>)
    ensures
        transfer_requests(state, replies).len() == replies.len(),
    decreases replies.len(),
{
    if replies.len() > 0 {
        lemma_transfer_requests_len(transfer_step(state, replies[0]).0, replies.drop_first());
    }
}

/// A transfer that completes writes exactly the bytes that it read, in the
/// order in which it read them.
pub proof fn lemma_bytes_preserved(state: TransferState, replies: Seq<TransferReplyView>)
    requires
        completes(state, replies),
    ensures
        bytes_written(transfer_requests(state, replies)) == bytes_read(replies),
    decreases replies.len(),
{
    let first = transfer_step(state, replies[0]);
    let rest = replies.drop_first();
    let asked = transfer_requests(state, replies);
    assert(asked.drop_first() == transfer_requests(first.0, rest));
    if replies.len() == 1 {
        assert(rest.len() == 0);
        assert(bytes_read(rest) == Seq::<u8>::empty());
        assert(bytes_written(asked.drop_first()) == Seq::<u8>::empty());
    } else {
        lemma_bytes_preserved(first.0, rest);
    }
}

/// In a transfer that completes from a state before the closing of the
/// writer, the writer is closed once, with the last request but one.
proof fn lemma_close_position(state: TransferState, replies: Seq<TransferReplyView>)
    requires
        completes(state, replies),
    ensures
        closes(transfer_requests(state, replies)) == if state is Closing {
            0nat
        } else {
            1nat
        },
        !(state is Closing) ==> replies.len() >= 2 && transfer_requests(
            state,
            replies,
        )[replies.len() - 2] == TransferRequestView::Close,
    decreases replies.len(),
{
    let first = transfer_step(state, replies[0]);
    let rest = replies.drop_first();
    let asked = transfer_requests(state, replies);
    lemma_transfer_requests_len(state, replies);
    lemma_transfer_requests_len(first.0, rest);
    assert(asked.drop_first() == transfer_requests(first.0, rest));
    if replies.len() == 1 {
        assert(closes(asked.drop_first()) == 0);
    } else if state is Closing {
        assert(!completes(first.0, rest));
    } else {
        lemma_close_position(first.0, rest);
        if first.0 is Closing {
            if rest.len() > 1 {
                let ended = transfer_step(first.0, rest[0]).0;
                assert(completes(first.0, rest) == completes(ended, rest.drop_first()));
            }
        }
    }
}

/// The bytes written by two runs of requests, one after the other.
proof fn lemma_bytes_written_append(a: Seq<TransferRequestView>, b: Seq<TransferRequestView>)
    ensures
        bytes_written(a + b) == bytes_written(a) + bytes_written(b),
    decreases a.len(),
{
    if a.len() > 0 {
        assert((a + b).drop_first() == a.drop_first() + b);
        lemma_bytes_written_append(a.drop_first(), b);
    }
}

/// A transfer that runs from its start to its successful end closes the
/// writer exactly once, with its last request but one, and every byte that was
/// read has been written by then.
pub proof fn lemma_closed_once(transfer: TransferView, replies: Seq<TransferReplyView>)
    requires
        completes(transfer_start(transfer).0, replies),
    ensures
        replies.len() >= 2,
        closes(transfer_requests(transfer_start(transfer).0, replies)) == 1,
        transfer_requests(transfer_start(transfer).0, replies)[replies.len() - 2]
            == TransferRequestView::Close,
        bytes_written(
            transfer_requests(transfer_start(transfer).0, replies).take(replies.len() - 2),
        ) == bytes_read(replies),
{
    let state = transfer_start(transfer).0;
    let asked = transfer_requests(state, replies);
    lemma_close_position(state, replies);
    lemma_bytes_preserved(state, replies);
    lemma_transfer_requests_len(state, replies);
    let head = asked.take(replies.len() - 2);
    let tail = asked.skip(replies.len() - 2);
    assert(asked == head + tail);
    lemma_bytes_written_append(head, tail);
    lemma_last_request(state, replies);
    assert(bytes_written(tail.drop_first().drop_first()) == Seq::<u8>::empty());
    assert(bytes_written(tail.drop_first()) == Seq::<u8>::empty());
}

/// The last request of a transfer that completes reports the success.
proof fn lemma_last_request(state: TransferState, replies: Seq<TransferReplyView>)
    requires
        completes(state, replies),
    ensures
        transfer_requests(state, replies).len() == replies.len(),
        transfer_requests(state, replies)[replies.len() - 1] == TransferRequestView::Finish(
            TransferOutcome::Done,
        ),
    decreases replies.len(),
{
    let first = transfer_step(state, replies[0]);
    let rest = replies.drop_first();
    lemma_transfer_requests_len(state, replies);
    lemma_transfer_requests_len(first.0, rest);
    if replies.len() > 1 {
        lemma_last_request(first.0, rest);
    }
}

/// The content type of the source is handed to the writer, and nothing else
/// of its metadata.
pub proof fn lemma_content_type_propagated(transfer: TransferView)
    ensures
        transfer_requests(transfer_start(transfer).0, seq![TransferReplyView::Completed])
            == seq![
            TransferRequestView::OpenWriter {
                path: transfer.destination,
                content_type: transfer.content_type,
            },
        ],
{
    let state = transfer_start(transfer).0;
    let replies = seq![TransferReplyView::Completed];
    assert(transfer_requests(transfer_step(state, replies[0]).0, replies.drop_first())
        == Seq::<TransferRequestView>::empty());
}

/// Where a transfer stands, with the data that goes with it.
enum Stage {
    ReaderOpen { destination: String, content_type: Option<String> },
    WriterOpen,
    StreamOpen,
    Reading,
    Writing,
    Closing,
    Finished { outcome: TransferOutcome },
}

impl View for Stage {
    type V = TransferState;

    closed spec fn view(&self) -> TransferState {
        match self {
            Stage::ReaderOpen { destination, content_type } => TransferState::ReaderOpen {
                destination: destination@,
                content_type: text_of(*content_type),
            },
            Stage::WriterOpen => TransferState::WriterOpen,
            Stage::StreamOpen => TransferState::StreamOpen,
            Stage::Reading => TransferState::Reading,
            Stage::Writing => TransferState::Writing,
            Stage::Closing => TransferState::Closing,
            Stage::Finished { outcome } => TransferState::Finished { outcome: *outcome },
        }
    }
}

/// One transfer in progress.
pub struct TransferTask {
    stage: Stage,
}

impl View for TransferTask {
    type V = TransferState;

    closed spec fn view(&self) -> TransferState {
        self.stage@
    }
}

/// Ends the transfer with `outcome`.
fn conclude(outcome: TransferOutcome) -> (next: (Stage, TransferRequest))
    ensures
        (next.0@, next.1@) == end_with(outcome),
{
    (Stage::Finished { outcome }, TransferRequest::Finish(outcome))
}

/// Ends the transfer on a reply that the outstanding request does not
/// provide for.
fn refuse(reply: TransferReply) -> (next: (Stage, TransferRequest))
    ensures
        (next.0@, next.1@) == refused(reply@),
{
    match reply {
        TransferReply::Error(kind) => conclude(TransferOutcome::Propagate(kind)),
        _ => conclude(TransferOutcome::OutOfTurn),
    }
}

impl TransferTask {
    /// Begins the transfer of one object.
    pub fn start(transfer: Transfer) -> (begun: (TransferTask, TransferRequest))
        ensures
            (begun.0@, begun.1@) == transfer_start(transfer@),
    {
        let Transfer { source, destination, content_type } = transfer;
        (
            TransferTask { stage: Stage::ReaderOpen { destination, content_type } },
            TransferRequest::OpenReader { path: source },
        )
    }

    /// Takes the reply to the outstanding request and gives the next
    /// request. A chunk that was read is handed on to be written as it is.
    /// Once the transfer has ended, every reply is answered with the same
    /// `Finish`.
    pub fn step(self, reply: TransferReply) -> (next: (TransferTask, TransferRequest))
        ensures
            (next.0@, next.1@) == transfer_step(self@, reply@),
    {
        let (stage, request) = match self.stage {
            Stage::ReaderOpen { destination, content_type } => match reply {
                TransferReply::Completed => (
                    Stage::WriterOpen,
                    TransferRequest::OpenWriter { path: destination, content_type },
                ),
                other => refuse(other),
            },
            Stage::WriterOpen => match reply {
                TransferReply::Completed => (Stage::StreamOpen, TransferRequest::OpenStream),
                other => refuse(other),
            },
            Stage::StreamOpen => match reply {
                TransferReply::Completed => (Stage::Reading, TransferRequest::ReadChunk),
                other => refuse(other),
            },
            Stage::Reading => match reply {
                TransferReply::Chunk(chunk) => (Stage::Writing, TransferRequest::WriteChunk(chunk)),
                TransferReply::End => (Stage::Closing, TransferRequest::Close),
                TransferReply::IoError(kind) => conclude(
                    TransferOutcome::Io(error_kind_of_io(kind)),
                ),
                other => refuse(other),
            },
            Stage::Writing => match reply {
                TransferReply::Completed => (Stage::Reading, TransferRequest::ReadChunk),
                other => refuse(other),
            },
            Stage::Closing => match reply {
                TransferReply::Completed => conclude(TransferOutcome::Done),
                other => refuse(other),
            },
            Stage::Finished { outcome } => conclude(outcome),
        };
        (TransferTask { stage }, request)
    }

    /// How the transfer ended, once it has.
    pub fn outcome(&self) -> (outcome: Option<TransferOutcome>)
        ensures
            outcome == match self@ {
                TransferState::Finished { outcome } => Some(outcome),
                _ => None,
            },
    {
        match &self.stage {
            Stage::Finished { outcome } => Some(*outcome),
            _ => None,
        }
    }
}

} // verus!
