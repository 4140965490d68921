use ghostscript::error::consts::{FATAL, NEED_INPUT, QUIT, SYNTAX_ERROR};
use ghostscript::error::ErrCode;
use ghostscript::instance::lock::LockPolicy;
use ghostscript::instance::{Ghostscript, GsRawInstance};
use ghostscript::interpreter::gs::{BufferFeed, FeedAction};
use ghostscript::interpreter::stream::{
    settle, CloseAction, GhostscriptStream, WriteAction, MAX_BYTES_PER_WRITE,
};
use ghostscript::interpreter::InterpreterResult;
use ghostscript::GS_OK;

fn open() -> GhostscriptStream {
    GhostscriptStream::new(GS_OK, 0).expect("the engine began")
}

/// Feeds a buffer of `len` bytes to an engine that answers the pieces with
/// `replies`, in their order, and asks for more input once they are used up.
/// Gives the pieces that reached the engine, and what closing has to do.
fn feed(len: usize, replies: &[(i32, i32)]) -> (Vec<(usize, usize)>, CloseAction, usize) {
    let mut feed = BufferFeed::new(open(), len);
    let mut pieces = Vec::new();
    loop {
        match feed.next() {
            FeedAction::Continue { offset, len } => {
                let (status, exit_code) =
                    if pieces.len() < replies.len() { replies[pieces.len()] } else { (NEED_INPUT, 0) };
                pieces.push((offset, len));
                feed.reply(status, exit_code);
            },
            FeedAction::Close(action) => return (pieces, action, feed.offset()),
        }
        assert!(pieces.len() < 1000, "feeding ends");
    }
}

#[test]
fn the_ceiling_of_one_call() {
    assert_eq!(MAX_BYTES_PER_WRITE, 65_535);
}

#[test]
fn a_refused_begin_is_the_result() {
    assert_eq!(
        GhostscriptStream::new(FATAL, 2).unwrap_err(),
        InterpreterResult(ErrCode(FATAL), 2)
    );
    assert_eq!(GhostscriptStream::new(QUIT, 0).unwrap_err(), InterpreterResult(ErrCode(QUIT), 0));
    assert_eq!(
        GhostscriptStream::new(NEED_INPUT, 0).unwrap_err(),
        InterpreterResult(ErrCode(NEED_INPUT), 0)
    );
    let stream = open();
    assert!(!stream.is_completed());
    assert!(!stream.is_closed());
}

#[test]
fn a_write_takes_at_most_the_ceiling() {
    let stream = open();
    assert_eq!(stream.write(0), WriteAction::Forward { len: 0 });
    assert_eq!(stream.write(1), WriteAction::Forward { len: 1 });
    assert_eq!(stream.write(65_534), WriteAction::Forward { len: 65_534 });
    assert_eq!(stream.write(65_535), WriteAction::Forward { len: 65_535 });
    assert_eq!(stream.write(65_536), WriteAction::Forward { len: 65_535 });
    assert_eq!(stream.write(usize::MAX), WriteAction::Forward { len: 65_535 });
}

#[test]
fn need_input_keeps_the_session_running() {
    let mut stream = open();
    assert_eq!(stream.write_reply(100, NEED_INPUT, 0), Ok(100));
    assert!(!stream.is_completed());
    assert_eq!(stream.write_reply(7, NEED_INPUT, 5), Ok(7));
    assert!(!stream.is_completed());
    assert_eq!(stream.write(10), WriteAction::Forward { len: 10 });
    assert_eq!(stream.close(), CloseAction::End);
    assert!(stream.is_closed());
}

#[test]
fn success_completes_the_session_with_an_error_for_the_write() {
    // Success is no request for more input: the engine gave its final answer.
    let mut stream = open();
    assert_eq!(stream.write_reply(100, GS_OK, 0), Err(ErrCode(GS_OK)));
    assert!(stream.is_completed());
    assert_eq!(stream.write(10), WriteAction::Settled(Err(ErrCode(GS_OK))));
    assert_eq!(stream.close(), CloseAction::Finished(InterpreterResult(ErrCode(GS_OK), 0)));
}

#[test]
fn an_error_completes_the_session_and_is_replayed() {
    let mut stream = open();
    assert_eq!(stream.write_reply(100, SYNTAX_ERROR, 4), Err(ErrCode(SYNTAX_ERROR)));
    assert!(stream.is_completed());
    for len in [0, 1, 65_535, 1 << 20] {
        assert_eq!(stream.write(len), WriteAction::Settled(Err(ErrCode(SYNTAX_ERROR))));
    }
    assert!(stream.is_completed());
    assert_eq!(
        stream.close(),
        CloseAction::Finished(InterpreterResult(ErrCode(SYNTAX_ERROR), 4))
    );
}

#[test]
fn a_quit_swallows_further_writes() {
    let mut stream = open();
    assert_eq!(stream.write_reply(100, QUIT, 1), Ok(100));
    assert!(stream.is_completed());
    assert_eq!(stream.write(10), WriteAction::Settled(Ok(10)));
    assert_eq!(stream.write(70_000), WriteAction::Settled(Ok(65_535)));
    assert_eq!(stream.write(0), WriteAction::Settled(Ok(0)));
    assert_eq!(stream.close(), CloseAction::Finished(InterpreterResult(ErrCode(QUIT), 1)));
}

#[test]
fn settling_a_write() {
    assert_eq!(settle(InterpreterResult(ErrCode(QUIT), 0), 12), Ok(12));
    assert_eq!(settle(InterpreterResult(ErrCode(GS_OK), 0), 12), Err(ErrCode(GS_OK)));
    assert_eq!(settle(InterpreterResult(ErrCode(FATAL), 9), 12), Err(ErrCode(FATAL)));
}

#[test]
fn flushing_does_nothing() {
    let mut stream = open();
    assert_eq!(stream.flush(), Ok(()));
    assert!(!stream.is_completed());
    stream.write_reply(1, FATAL, 0).unwrap_err();
    assert_eq!(stream.flush(), Ok(()));
    assert!(stream.is_completed());
}

#[test]
fn dropping_an_open_session_closes_it() {
    let mut running = open();
    assert_eq!(running.drop(), Some(CloseAction::End));
    assert!(running.is_closed());
    assert_eq!(running.drop(), None);

    let mut completed = open();
    completed.write_reply(1, FATAL, 3).unwrap_err();
    assert_eq!(
        completed.drop(),
        Some(CloseAction::Finished(InterpreterResult(ErrCode(FATAL), 3)))
    );
    assert_eq!(completed.drop(), None);

    let mut closed = open();
    closed.close();
    assert_eq!(closed.drop(), None);
}

#[test]
fn a_large_buffer_goes_in_pieces_that_add_up() {
    let len = 200_000;
    let (pieces, action, dealt) = feed(len, &[]);
    assert_eq!(
        pieces,
        vec![(0, 65_535), (65_535, 65_535), (131_070, 65_535), (196_605, 3_395)]
    );
    assert!(pieces.len() >= 2);
    assert!(pieces.iter().all(|(_, piece)| *piece <= MAX_BYTES_PER_WRITE));
    assert_eq!(pieces.iter().map(|(_, piece)| piece).sum::<usize>(), len);
    assert_eq!(action, CloseAction::End);
    assert_eq!(dealt, len);
}

#[test]
fn pieces_at_the_edges_of_the_ceiling() {
    assert_eq!(feed(0, &[]).0, vec![]);
    assert_eq!(feed(1, &[]).0, vec![(0, 1)]);
    assert_eq!(feed(65_535, &[]).0, vec![(0, 65_535)]);
    assert_eq!(feed(65_536, &[]).0, vec![(0, 65_535), (65_535, 1)]);
    assert_eq!(feed(131_070, &[]).0, vec![(0, 65_535), (65_535, 65_535)]);
    assert_eq!(feed(0, &[]).1, CloseAction::End);
}

#[test]
fn an_error_on_a_piece_stops_the_feeding() {
    let (pieces, action, dealt) = feed(200_000, &[(NEED_INPUT, 0), (SYNTAX_ERROR, 2)]);
    assert_eq!(pieces, vec![(0, 65_535), (65_535, 65_535)]);
    assert_eq!(action, CloseAction::Finished(InterpreterResult(ErrCode(SYNTAX_ERROR), 2)));
    assert_eq!(dealt, 65_535);
}

#[test]
fn a_quit_on_a_piece_passes_over_the_rest() {
    let (pieces, action, dealt) = feed(200_000, &[(QUIT, 0)]);
    assert_eq!(pieces, vec![(0, 65_535)]);
    assert_eq!(action, CloseAction::Finished(InterpreterResult(ErrCode(QUIT), 0)));
    assert_eq!(dealt, 200_000);
}

#[test]
fn success_on_a_piece_is_the_final_answer() {
    let (pieces, action, dealt) = feed(100_000, &[(GS_OK, 0)]);
    assert_eq!(pieces, vec![(0, 65_535)]);
    assert_eq!(action, CloseAction::Finished(InterpreterResult(ErrCode(GS_OK), 0)));
    assert_eq!(dealt, 0);
}

#[test]
fn a_buffer_is_run_through_an_instance() {
    let mut instance = Ghostscript::new(LockPolicy::Unsynchronized, GsRawInstance::At(1), ());
    assert_eq!(
        instance.interpret_buffer(10, FATAL, 1).unwrap_err(),
        InterpreterResult(ErrCode(FATAL), 1)
    );
    let mut feed = instance.interpret_buffer(10, GS_OK, 0).expect("the engine began");
    assert_eq!(feed.offset(), 0);
    assert_eq!(feed.next(), FeedAction::Continue { offset: 0, len: 10 });
    feed.reply(NEED_INPUT, 0);
    assert_eq!(feed.offset(), 10);
    assert_eq!(feed.next(), FeedAction::Close(CloseAction::End));

    let stream = instance.open_interpreter_stream(GS_OK, 0).expect("the engine began");
    assert!(!stream.is_completed());
    assert_eq!(
        instance.open_interpreter_stream(-12, 5).unwrap_err(),
        InterpreterResult(ErrCode(-12), 5)
    );
}

#[test]
fn results_compare_by_status_then_exit_code() {
    assert!(InterpreterResult(ErrCode(-2), 9) < InterpreterResult(ErrCode(-1), 0));
    assert!(InterpreterResult(ErrCode(0), 1) > InterpreterResult(ErrCode(0), 0));
}
