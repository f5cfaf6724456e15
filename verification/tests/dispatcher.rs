use framed_dispatch::dispatch::{poll_once, resolve_step, FlushEvent, PollStatus, ResolveStep};
use framed_dispatch::error::{ErrorKind, FramedDispatcherError};
use framed_dispatch::read::{read_step, run_read_stage, ReadDecision, ReadEvent, ReadOutcome};
use framed_dispatch::state::State;
use framed_dispatch::write::{
    encode_result_step, flush_write_step, run_write_stage, write_pull_step, FlushDecision,
    InnerMessage, WriteDecision, WriteOutcome,
};

type Req = u32;
type Resp = &'static str;
type E = &'static str;
type EE = &'static str;
type DE = &'static str;
type DispErr = FramedDispatcherError<E, EE, DE>;
type Msg = Result<InnerMessage<Resp>, E>;

fn poll(
    state: State<E, EE, DE>,
    reads: Vec<ReadEvent<Req, E, DE>>,
    queue: Vec<Msg>,
    buffer: Vec<Resp>,
    cap: usize,
    flush: FlushEvent<EE>,
) -> framed_dispatch::dispatch::PollReport<Req, Resp, E, EE, DE> {
    poll_once::<Req, Resp, E, EE, DE>(state, reads, queue, buffer, cap, flush)
}

#[test]
fn read_step_admits_an_available_item() {
    let d = read_step::<Req, E, EE, DE>(ReadEvent::Item(7));
    assert!(matches!(d, ReadDecision::Admit(7)));
}

#[test]
fn read_step_suspends_on_pending_readiness_and_pending_frame() {
    assert!(matches!(
        read_step::<Req, E, EE, DE>(ReadEvent::NotReady),
        ReadDecision::Suspend
    ));
    assert!(matches!(
        read_step::<Req, E, EE, DE>(ReadEvent::NoItem),
        ReadDecision::Suspend
    ));
}

#[test]
fn read_step_maps_failures_and_stream_end_to_states() {
    assert!(matches!(
        read_step::<Req, E, EE, DE>(ReadEvent::ReadyFailed("nope")),
        ReadDecision::Enter(State::Error(FramedDispatcherError::Service("nope")))
    ));
    assert!(matches!(
        read_step::<Req, E, EE, DE>(ReadEvent::DecodeFailed("bad frame")),
        ReadDecision::Enter(State::FramedError(FramedDispatcherError::Decoder(
            "bad frame"
        )))
    ));
    assert!(matches!(
        read_step::<Req, E, EE, DE>(ReadEvent::StreamEnded),
        ReadDecision::Enter(State::Stopping)
    ));
}

#[test]
fn read_stage_admits_items_in_arrival_order() {
    let events = vec![
        ReadEvent::Item(1),
        ReadEvent::Item(2),
        ReadEvent::Item(3),
        ReadEvent::NoItem,
    ];
    let (admitted, out) = run_read_stage::<Req, E, EE, DE>(events);
    assert_eq!(admitted, vec![1, 2, 3]);
    assert!(matches!(out, ReadOutcome::Suspended));
}

#[test]
fn read_stage_stops_admission_at_a_decode_failure() {
    let events = vec![
        ReadEvent::Item(1),
        ReadEvent::DecodeFailed("bad frame"),
        ReadEvent::Item(2),
    ];
    let (admitted, out) = run_read_stage::<Req, E, EE, DE>(events);
    assert_eq!(admitted, vec![1]);
    assert!(matches!(
        out,
        ReadOutcome::Entered(State::FramedError(FramedDispatcherError::Decoder(
            "bad frame"
        )))
    ));
}

#[test]
fn write_pull_step_decides_per_channel_value() {
    assert!(matches!(
        write_pull_step::<Resp, E, EE, DE>(Ok(InnerMessage::Item("r"))),
        WriteDecision::Encode("r")
    ));
    assert!(matches!(
        write_pull_step::<Resp, E, EE, DE>(Ok(InnerMessage::Close)),
        WriteDecision::Enter(State::FlushAndStop)
    ));
    assert!(matches!(
        write_pull_step::<Resp, E, EE, DE>(Err("task failed")),
        WriteDecision::Enter(State::Error(FramedDispatcherError::Service("task failed")))
    ));
}

#[test]
fn encode_failure_enters_framed_error() {
    assert!(encode_result_step::<E, EE, DE>(Ok(())).is_none());
    assert!(matches!(
        encode_result_step::<E, EE, DE>(Err("too big")),
        Some(State::FramedError(FramedDispatcherError::Encoder("too big")))
    ));
}

#[test]
fn flush_failure_during_writing_enters_framed_error() {
    assert!(matches!(
        flush_write_step::<E, EE, DE>(FlushEvent::Done),
        FlushDecision::Proceed
    ));
    assert!(matches!(
        flush_write_step::<E, EE, DE>(FlushEvent::Pending),
        FlushDecision::Pause
    ));
    assert!(matches!(
        flush_write_step::<E, EE, DE>(FlushEvent::Failed("broken pipe")),
        FlushDecision::Enter(State::FramedError(FramedDispatcherError::Encoder(
            "broken pipe"
        )))
    ));
}

// Every completed response is delivered exactly once, in completion order,
// even when a small write buffer forces intermediate flushes.
#[test]
fn write_stage_delivers_every_response_once() {
    let queue: Vec<Msg> = vec![
        Ok(InnerMessage::Item("one")),
        Ok(InnerMessage::Item("two")),
        Ok(InnerMessage::Item("three")),
    ];
    let (sent, buffer, out) = run_write_stage::<Resp, E, EE, DE>(queue, Vec::new(), 2);
    assert_eq!(sent, vec!["one", "two", "three"]);
    assert!(buffer.is_empty());
    assert!(matches!(out, WriteOutcome::NoProgress));
}

// Two requests admitted in order R1 then R2 may legally have their
// responses written in order R2 then R1 when R2's handler finishes first:
// the write stage follows completion order, and that is not a bug.
#[test]
fn responses_may_be_written_in_completion_order() {
    let (admitted, out) = run_read_stage::<Req, E, EE, DE>(vec![
        ReadEvent::Item(1), // R1, slow handler
        ReadEvent::Item(2), // R2, fast handler
        ReadEvent::NoItem,
    ]);
    assert_eq!(admitted, vec![1, 2]);
    assert!(matches!(out, ReadOutcome::Suspended));

    // R2's task completes first, so its response reaches the channel first
    let queue: Vec<Msg> = vec![Ok(InnerMessage::Item("r2")), Ok(InnerMessage::Item("r1"))];
    let (sent, _, _) = run_write_stage::<Resp, E, EE, DE>(queue, Vec::new(), 8);
    assert_eq!(sent, vec!["r2", "r1"]);
}

// A close request stops admission from the channel: responses completed
// before it are kept, later ones are not, and the dispatcher resolves with
// success even when the final best-effort flush fails.
#[test]
fn close_stops_the_channel_and_resolves_ok_despite_flush_failure() {
    let queue: Vec<Msg> = vec![
        Ok(InnerMessage::Item("before")),
        Ok(InnerMessage::Close),
        Ok(InnerMessage::Item("after")),
    ];
    let report = poll(
        State::Processing,
        vec![ReadEvent::NoItem],
        queue,
        Vec::new(),
        10,
        FlushEvent::Failed("broken pipe"),
    );
    assert!(report.admitted.is_empty());
    // "before" stayed in the write buffer and the final flush failed, so it
    // was never delivered; "after" was never accepted at all
    assert!(report.written.is_empty());
    assert!(matches!(report.status, PollStatus::Resolved(Ok(()))));
}

#[test]
fn close_flushes_buffered_responses_when_the_flush_completes() {
    let queue: Vec<Msg> = vec![Ok(InnerMessage::Item("before")), Ok(InnerMessage::Close)];
    let report = poll(
        State::Processing,
        vec![ReadEvent::NoItem],
        queue,
        Vec::new(),
        10,
        FlushEvent::Done,
    );
    assert_eq!(report.written, vec!["before"]);
    assert!(matches!(report.status, PollStatus::Resolved(Ok(()))));
}

// Transport yields items A and B; the service answers "a-resp" and "b-resp"
// with B's handler finishing first. The responses appear in completion
// order, and the run resolves with success once the stream ends cleanly.
#[test]
fn two_items_with_reordered_completions_then_clean_end() {
    let report = poll(
        State::Processing,
        vec![ReadEvent::Item(1), ReadEvent::Item(2), ReadEvent::NoItem],
        vec![
            Ok(InnerMessage::Item("b-resp")),
            Ok(InnerMessage::Item("a-resp")),
        ],
        Vec::new(),
        8,
        FlushEvent::Done,
    );
    assert_eq!(report.admitted, vec![1, 2]);
    assert_eq!(report.written, vec!["b-resp", "a-resp"]);
    let (state, buffer) = match report.status {
        PollStatus::Suspended(s, b) => (s, b),
        PollStatus::Resolved(_) => panic!("should suspend while the stream is open"),
    };
    assert!(buffer.is_empty());

    let report = poll(
        state,
        vec![ReadEvent::StreamEnded],
        Vec::new(),
        buffer,
        8,
        FlushEvent::Done,
    );
    assert!(report.admitted.is_empty());
    assert!(report.written.is_empty());
    assert!(matches!(report.status, PollStatus::Resolved(Ok(()))));
}

// Transport yields one item that fails to decode: the run resolves with a
// decode error and no request is ever admitted to the service.
#[test]
fn decode_failure_resolves_with_decoder_error_and_no_call() {
    let report = poll(
        State::Processing,
        vec![ReadEvent::DecodeFailed("bad frame"), ReadEvent::Item(1)],
        Vec::new(),
        Vec::new(),
        1,
        FlushEvent::Done,
    );
    assert!(report.admitted.is_empty());
    assert!(report.written.is_empty());
    assert!(matches!(
        report.status,
        PollStatus::Resolved(Err(FramedDispatcherError::Decoder("bad frame")))
    ));
}

// The service's readiness check fails on the first poll: the run resolves
// with a service error and zero items are decoded.
#[test]
fn ready_error_on_first_check_resolves_with_service_error() {
    let report = poll(
        State::Processing,
        vec![ReadEvent::ReadyFailed("no capacity"), ReadEvent::Item(1)],
        Vec::new(),
        Vec::new(),
        1,
        FlushEvent::Done,
    );
    assert!(report.admitted.is_empty());
    assert!(report.written.is_empty());
    assert!(matches!(
        report.status,
        PollStatus::Resolved(Err(FramedDispatcherError::Service("no capacity")))
    ));
}

// A service that never reports ready: the dispatcher suspends without
// decoding anything and without error.
#[test]
fn permanent_unreadiness_suspends_without_error() {
    let report = poll(
        State::Processing,
        vec![ReadEvent::NotReady],
        Vec::new(),
        Vec::new(),
        1,
        FlushEvent::Done,
    );
    assert!(report.admitted.is_empty());
    assert!(report.written.is_empty());
    assert!(matches!(
        report.status,
        PollStatus::Suspended(State::Processing, _)
    ));
}

#[test]
fn service_error_from_the_channel_resolves_with_service_error() {
    let report = poll(
        State::Processing,
        vec![ReadEvent::NoItem],
        vec![Err("task failed")],
        Vec::new(),
        1,
        FlushEvent::Done,
    );
    assert!(matches!(
        report.status,
        PollStatus::Resolved(Err(FramedDispatcherError::Service("task failed")))
    ));
}

// A service failure flushes buffered responses before its error surfaces...
#[test]
fn error_state_flushes_before_surfacing_its_error() {
    let report = poll(
        State::Error(FramedDispatcherError::Service("late failure")),
        Vec::new(),
        Vec::new(),
        vec!["buffered"],
        1,
        FlushEvent::Done,
    );
    assert!(report.admitted.is_empty());
    assert_eq!(report.written, vec!["buffered"]);
    assert!(matches!(
        report.status,
        PollStatus::Resolved(Err(FramedDispatcherError::Service("late failure")))
    ));
}

// ... and stays suspended while that final flush is pending ...
#[test]
fn error_state_waits_for_a_pending_flush() {
    let report = poll(
        State::Error(FramedDispatcherError::Service("late failure")),
        Vec::new(),
        Vec::new(),
        vec!["buffered"],
        1,
        FlushEvent::Pending,
    );
    assert!(report.written.is_empty());
    assert!(matches!(
        report.status,
        PollStatus::Suspended(State::Error(FramedDispatcherError::Service("late failure")), _)
    ));
}

// ... while a framing failure surfaces immediately, without a final flush.
#[test]
fn framed_error_state_skips_the_final_flush() {
    let report = poll(
        State::FramedError(FramedDispatcherError::Encoder("too big")),
        Vec::new(),
        Vec::new(),
        vec!["buffered"],
        1,
        FlushEvent::Done,
    );
    assert!(report.written.is_empty());
    assert!(matches!(
        report.status,
        PollStatus::Resolved(Err(FramedDispatcherError::Encoder("too big")))
    ));
}

#[test]
fn flush_and_stop_waits_for_a_pending_flush() {
    let r = resolve_step::<Resp, E, EE, DE>(
        State::FlushAndStop,
        vec!["buffered"],
        FlushEvent::Pending,
    );
    match r {
        ResolveStep::StillPending(State::FlushAndStop, buffer) => {
            assert_eq!(buffer, vec!["buffered"]);
        }
        _ => panic!("a pending flush must keep the dispatcher suspended"),
    }
}

#[test]
fn stopping_resolves_ok_immediately() {
    let r = resolve_step::<Resp, E, EE, DE>(State::Stopping, Vec::new(), FlushEvent::Pending);
    assert!(matches!(r, ResolveStep::Resolved(Ok(()), _)));
}

#[test]
fn take_error_consumes_the_slot_once() {
    let mut state: State<E, EE, DE> = State::Error(FramedDispatcherError::Service("boom"));
    let err = state.take_error();
    assert!(matches!(err, FramedDispatcherError::Service("boom")));
    assert!(state.is_processing());
}

#[test]
fn take_framed_error_consumes_the_slot_once() {
    let mut state: State<E, EE, DE> =
        State::FramedError(FramedDispatcherError::Decoder("bad frame"));
    let err = state.take_framed_error();
    assert!(matches!(err, FramedDispatcherError::Decoder("bad frame")));
    assert!(state.is_processing());
}

#[test]
fn error_kinds_are_reported() {
    let service: DispErr = FramedDispatcherError::Service("s");
    let encoder: DispErr = FramedDispatcherError::Encoder("e");
    let decoder: DispErr = FramedDispatcherError::Decoder("d");
    assert_eq!(service.kind(), ErrorKind::Service);
    assert_eq!(encoder.kind(), ErrorKind::Encoder);
    assert_eq!(decoder.kind(), ErrorKind::Decoder);
}

#[test]
fn a_bare_service_error_converts_to_the_service_kind() {
    let err: DispErr = FramedDispatcherError::from("boom");
    assert!(matches!(err, FramedDispatcherError::Service("boom")));
}

#[test]
fn error_kind_labels_name_the_failing_side() {
    let service: DispErr = FramedDispatcherError::Service("s");
    let encoder: DispErr = FramedDispatcherError::Encoder("e");
    let decoder: DispErr = FramedDispatcherError::Decoder("d");
    assert_eq!(service.kind_label(), "service");
    assert_eq!(encoder.kind_label(), "encoder");
    assert_eq!(decoder.kind_label(), "decoder");
}

// A close request whose final flush is pending keeps the dispatcher
// suspended; a later poll completes the flush, delivers what was buffered,
// and resolves with success.
#[test]
fn close_with_pending_flush_resolves_on_a_later_poll() {
    let queue: Vec<Msg> = vec![Ok(InnerMessage::Item("x")), Ok(InnerMessage::Close)];
    let report = poll(
        State::Processing,
        vec![ReadEvent::NoItem],
        queue,
        Vec::new(),
        10,
        FlushEvent::Pending,
    );
    assert!(report.written.is_empty());
    let (state, buffer) = match report.status {
        PollStatus::Suspended(s, b) => (s, b),
        PollStatus::Resolved(_) => panic!("a pending final flush must suspend the dispatcher"),
    };
    assert!(matches!(state, State::FlushAndStop));
    assert_eq!(buffer, vec!["x"]);

    let report = poll(state, Vec::new(), Vec::new(), buffer, 10, FlushEvent::Done);
    assert_eq!(report.written, vec!["x"]);
    assert!(matches!(report.status, PollStatus::Resolved(Ok(()))));
}

// A task failure arriving through the channel still lets already-buffered
// responses reach the transport before the error surfaces.
#[test]
fn task_failure_flushes_buffered_responses_before_surfacing() {
    let queue: Vec<Msg> = vec![Ok(InnerMessage::Item("x")), Err("task failed")];
    let report = poll(
        State::Processing,
        vec![ReadEvent::NoItem],
        queue,
        Vec::new(),
        10,
        FlushEvent::Done,
    );
    assert_eq!(report.written, vec!["x"]);
    assert!(matches!(
        report.status,
        PollStatus::Resolved(Err(FramedDispatcherError::Service("task failed")))
    ));
}
