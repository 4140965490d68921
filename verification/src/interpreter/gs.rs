//! Running a buffer of program text through an instance, piece by piece.

use super::stream::{
    chunk_len, close_action, state_after_reply, write_action, CloseAction, GhostscriptStream,
    State, WriteAction, MAX_BYTES_PER_WRITE,
};
use super::{InterpreterResult, PostscriptExitCode};
use crate::error::consts::{NEED_INPUT, QUIT};
use crate::error::ErrCode;
use crate::instance::Ghostscript;
use crate::GS_OK;
use vstd::prelude::*;

verus! {

/// What feeding a buffer is, for contracts.
pub struct FeedView {
    /// Where the streaming session stands.
    pub state: State,
    /// The length of the buffer.
    pub len: nat,
    /// How many bytes of the buffer are dealt with: taken by the engine, or
    /// passed over after the interpreter left.
    pub offset: nat,
}

/// What feeding a buffer has to do next.
#[derive(Debug, Copy, Clone, PartialEq, Eq, Structural)]
pub enum FeedAction {
    /// Hand the `len` bytes of the buffer that begin at `offset` to the
    /// engine's "continue" call, then report its answer.
    Continue { offset: usize, len: usize },
    /// The buffer is dealt with or the engine gave its final answer: the
    /// session is closed, and this is left to do for its result.
    Close(CloseAction),
}

/// Whether the interpreter left, so that the rest of the input is passed over.
pub open spec fn has_left(state: State) -> bool {
    state matches State::Completed(result) && result.0 == ErrCode(QUIT)
}

/// Whether a piece of the buffer is due for the engine.
pub open spec fn piece_due(feed: FeedView) -> bool {
    feed.state == State::Running && feed.offset < feed.len
}

/// What feeding has to do next, where it is not closed: the next piece goes
/// to the engine while it takes input and bytes are left; else the session is
/// closed.
pub open spec fn feed_action(feed: FeedView) -> FeedAction {
    if piece_due(feed) {
        FeedAction::Continue {
            offset: feed.offset as usize,
            len: chunk_len((feed.len - feed.offset) as nat) as usize,
        }
    } else {
        FeedAction::Close(close_action(feed.state))
    }
}

/// The feeding after it said what to do next: unchanged where a piece is due;
/// else closed, with the rest of the buffer passed over where the interpreter
/// left.
pub open spec fn feed_after_next(feed: FeedView) -> FeedView {
    if piece_due(feed) {
        feed
    } else {
        FeedView {
            state: State::Closed,
            offset: if has_left(feed.state) {
                feed.len
            } else {
                feed.offset
            },
            ..feed
        }
    }
}

/// The feeding after the engine answered the piece that was due: the piece
/// counts as dealt with unless the answer is an error.
pub open spec fn feed_after_reply(feed: FeedView, status: i32, exit_code: PostscriptExitCode)
    -> FeedView {
    FeedView {
        state: state_after_reply(status, exit_code),
        offset: if status == NEED_INPUT || status == QUIT {
            feed.offset + chunk_len((feed.len - feed.offset) as nat)
        } else {
            feed.offset
        },
        ..feed
    }
}

/// The lengths of the pieces in which a buffer of `len` bytes goes to the
/// engine while the engine takes input: each as long as one call takes, but
/// for the last.
pub open spec fn piece_lengths(len: nat) -> Seq<nat>
    decreases len,
{
    if len == 0 {
        Seq::empty()
    } else {
        seq![chunk_len(len)] + piece_lengths((len - chunk_len(len)) as nat)
    }
}

/// The sum of a sequence of lengths.
pub open spec fn total(lengths: Seq<nat>) -> nat
    decreases lengths.len(),
{
    if lengths.len() == 0 {
        0
    } else {
        lengths[0] + total(lengths.drop_first())
    }
}

/// The lengths of the pieces that go to the engine from here on, if the
/// engine keeps asking for more input.
pub open spec fn pieces_fed(feed: FeedView) -> Seq<nat>
    decreases feed.len - feed.offset,
{
    if piece_due(feed) {
        seq![chunk_len((feed.len - feed.offset) as nat)] + pieces_fed(
            feed_after_reply(feed, NEED_INPUT, 0),
        )
    } else {
        Seq::empty()
    }
}

/// A buffer goes to the engine in pieces none of which is empty or longer
/// than one call takes, and which together are as long as the buffer. A
/// buffer that is longer than one call takes goes in two pieces or more.
pub proof fn lemma_piece_lengths(len: nat)
    ensures
        forall|i: int|
            0 <= i < piece_lengths(len).len() ==> 0 < #[trigger] piece_lengths(len)[i]
                <= MAX_BYTES_PER_WRITE,
        total(piece_lengths(len)) == len,
        len > MAX_BYTES_PER_WRITE ==> piece_lengths(len).len() >= 2,
    decreases len,
{
    if len > 0 {
        let first = chunk_len(len);
        let rest = (len - first) as nat;
        lemma_piece_lengths(rest);
        let pieces = piece_lengths(len);
        assert(pieces == seq![first] + piece_lengths(rest));
        assert(pieces.drop_first() =~= piece_lengths(rest));
        assert forall|i: int| 0 <= i < pieces.len() implies 0 < #[trigger] pieces[i]
            <= MAX_BYTES_PER_WRITE by {
            if i > 0 {
                assert(pieces[i] == piece_lengths(rest)[i - 1]);
            }
        }
        if len > MAX_BYTES_PER_WRITE {
            assert(rest > 0);
            assert(piece_lengths(rest).len() >= 1);
        }
    }
}

/// While the engine asks for more input, a session that takes input is fed
/// the rest of its buffer in exactly those pieces, after which the whole
/// buffer is dealt with.
pub proof fn lemma_feed_takes_all(feed: FeedView)
    requires
        feed.state == State::Running,
        feed.offset <= feed.len,
    ensures
        pieces_fed(feed) == piece_lengths((feed.len - feed.offset) as nat),
        feed.offset + total(pieces_fed(feed)) == feed.len,
    decreases feed.len - feed.offset,
{
    lemma_piece_lengths((feed.len - feed.offset) as nat);
    if piece_due(feed) {
        let next = feed_after_reply(feed, NEED_INPUT, 0);
        lemma_feed_takes_all(next);
        assert(pieces_fed(feed).drop_first() =~= pieces_fed(next));
    }
}

/// Once the engine gave its final answer to a piece, no piece is due any
/// more: the engine is not called again for the rest of the buffer, and
/// closing hands out the answer that was kept.
pub proof fn lemma_final_answer_is_kept(feed: FeedView, status: i32, exit_code: PostscriptExitCode)
    requires
        piece_due(feed),
        status != NEED_INPUT,
    ensures
        ({
            let after = feed_after_reply(feed, status, exit_code);
            let kept = InterpreterResult(ErrCode(status), exit_code);
            &&& after.state == State::Completed(kept)
            &&& !piece_due(after)
            &&& feed_action(after) == FeedAction::Close(CloseAction::Finished(kept))
            &&& forall|buf_len: usize| #[trigger]
                write_action(after.state, buf_len) is Settled
        }),
{
}

/// Feeding one buffer to a streaming session.
#[derive(Debug)]
pub struct BufferFeed {
    stream: GhostscriptStream,
    len: usize,
    offset: usize,
}

impl View for BufferFeed {
    type V = FeedView;

    closed spec fn view(&self) -> FeedView {
        FeedView { state: self.stream@, len: self.len as nat, offset: self.offset as nat }
    }
}

impl BufferFeed {
    /// No more is dealt with than the buffer holds.
    #[verifier::type_invariant]
    pub closed spec fn well_formed(&self) -> bool {
        self.offset <= self.len
    }

    /// Begins to feed a buffer of `len` bytes to a session that was just
    /// opened.
    pub fn new(stream: GhostscriptStream, len: usize) -> (feed: BufferFeed)
        ensures
            feed@ == (FeedView { state: stream@, len: len as nat, offset: 0 }),
    {
        BufferFeed { stream, len, offset: 0 }
    }

    /// How many bytes of the buffer are dealt with.
    pub fn offset(&self) -> (offset: usize)
        ensures
            offset == self@.offset,
            self@.offset <= self@.len,
    {
        proof {
            use_type_invariant(self);
        }
        self.offset
    }

    /// Says what to do next, and closes the session where no piece is due.
    pub fn next(&mut self) -> (action: FeedAction)
        requires
            old(self)@.state != State::Closed,
        ensures
            action == feed_action(old(self)@),
            final(self)@ == feed_after_next(old(self)@),
    {
        proof {
            use_type_invariant(&*self);
        }
        let mut offset: usize = self.offset;
        let len: usize = self.len;
        let mut failed = false;
        while offset < len && !failed
            invariant
                self.offset <= offset <= len,
                len == self.len,
                *self == *old(self),
                self.stream@ != State::Closed,
                offset > self.offset ==> has_left(self.stream@),
                failed ==> self.stream@ is Completed && !has_left(self.stream@),
            decreases len - offset + if failed { 0int } else { 1int },
        {
            match self.stream.write(len - offset) {
                WriteAction::Forward { len: piece } => {
                    return FeedAction::Continue { offset, len: piece };
                },
                WriteAction::Settled(Ok(passed)) => {
                    offset = offset + passed;
                },
                WriteAction::Settled(Err(_)) => {
                    failed = true;
                },
            }
        }
        let action = self.stream.close();
        self.set_offset(offset);
        FeedAction::Close(action)
    }

    /// Takes the engine's answer to the piece that was due.
    pub fn reply(&mut self, status: i32, exit_code: PostscriptExitCode)
        requires
            piece_due(old(self)@),
        ensures
            final(self)@ == feed_after_reply(old(self)@, status, exit_code),
    {
        proof {
            use_type_invariant(&*self);
        }
        let rest: usize = self.len - self.offset;
        let piece: usize = if rest <= MAX_BYTES_PER_WRITE {
            rest
        } else {
            MAX_BYTES_PER_WRITE
        };
        let offset: usize = self.offset;
        match self.stream.write_reply(piece, status, exit_code) {
            Ok(taken) => {
                self.set_offset(offset + taken);
            },
            Err(_) => {},
        }
    }

    /// Notes how many bytes are dealt with.
    fn set_offset(&mut self, offset: usize)
        requires
            offset <= old(self).len,
        ensures
            final(self).stream == old(self).stream,
            final(self).len == old(self).len,
            final(self).offset == offset,
        no_unwind
    {
        self.offset = offset;
    }
}

impl<T> Ghostscript<T> {
    /// Reads the engine's answer to the "begin" call: a streaming session on
    /// success, the answer as the error else.
    pub fn open_interpreter_stream(&mut self, status: i32, exit_code: PostscriptExitCode)
        -> (stream: Result<GhostscriptStream, InterpreterResult>)
        ensures
            status == GS_OK ==> stream is Ok && stream->Ok_0@ == State::Running,
            status != GS_OK ==> stream == Err::<GhostscriptStream, InterpreterResult>(
                InterpreterResult(ErrCode(status), exit_code),
            ),
            *final(self) == *old(self),
    {
        GhostscriptStream::new(status, exit_code)
    }

    /// Begins to run a buffer of `len` bytes, given the engine's answer to the
    /// "begin" call: where the engine refused, its answer is the result and
    /// nothing is fed.
    pub fn interpret_buffer(&mut self, len: usize, status: i32, exit_code: PostscriptExitCode)
        -> (feed: Result<BufferFeed, InterpreterResult>)
        ensures
            status == GS_OK ==> feed is Ok && feed->Ok_0@ == (FeedView {
                state: State::Running,
                len: len as nat,
                offset: 0,
            }),
            status != GS_OK ==> feed == Err::<BufferFeed, InterpreterResult>(
                InterpreterResult(ErrCode(status), exit_code),
            ),
            *final(self) == *old(self),
    {
        match self.open_interpreter_stream(status, exit_code) {
            Ok(stream) => Ok(BufferFeed::new(stream, len)),
            Err(result) => Err(result),
        }
    }
}

} // verus!
