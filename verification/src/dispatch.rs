//! Resolution of the terminal states, and one whole poll of the dispatcher.

use vstd::prelude::*;

use crate::error::FramedDispatcherError;
use crate::read::{
    admitted_items, lemma_read_outcome_not_processing, lemma_read_stage_exact, read_outcome,
    run_read_stage, ReadEvent, ReadOutcome,
};
use crate::state::State;
use crate::write::{
    lemma_every_response_delivered, lemma_write_outcome_not_processing, lemma_write_stage_exact,
    responses_prefix, run_write_stage, write_outcome, write_run, InnerMessage, WriteOutcome,
};

verus! {

/// What the environment reports about one attempt to flush the transport's
/// write buffer.
pub enum FlushEvent<EE> {
    /// The flush cannot complete yet.
    Pending,
    /// The flush completed and the buffered responses reached the transport.
    Done,
    /// The flush failed.
    Failed(EE),
}

/// One step of resolving a terminal-pending state.
pub enum ResolveStep<Resp, E, EE, DE> {
    /// A final flush is still pending: stay suspended in the given state,
    /// keeping the still-buffered responses.
    StillPending(State<E, EE, DE>, Vec<Resp>),
    /// The dispatcher resolves with the given result; the second field holds
    /// the responses its final flush delivered to the transport.
    Resolved(Result<(), FramedDispatcherError<E, EE, DE>>, Vec<Resp>),
}

/// Whether and how a terminal-pending state resolves, given whether the
/// write buffer is empty and how a flush attempt went. `None` means the
/// dispatcher stays suspended on a pending flush. `Error` flushes before
/// surfacing its error (a failure of that final flush is swallowed);
/// `FramedError` surfaces its error without flushing; `FlushAndStop`
/// flushes best-effort and resolves with success whatever the flush did;
/// `Stopping` resolves with success at once.
pub open spec fn resolve_outcome<E, EE, DE>(
    state: State<E, EE, DE>,
    buf_empty: bool,
    flush: FlushEvent<EE>,
) -> Option<Result<(), FramedDispatcherError<E, EE, DE>>> {
    match state {
        State::Processing => None,
        State::Error(e) => if buf_empty {
            Some(Result::Err(e))
        } else {
            match flush {
                FlushEvent::Pending => None,
                _ => Some(Result::Err(e)),
            }
        },
        State::FramedError(e) => Some(Result::Err(e)),
        State::FlushAndStop => if buf_empty {
            Some(Result::Ok(()))
        } else {
            match flush {
                FlushEvent::Pending => None,
                _ => Some(Result::Ok(())),
            }
        },
        State::Stopping => Some(Result::Ok(())),
    }
}

/// The responses a resolving state delivers to the transport: the buffered
/// responses when the state flushes and the flush completes, nothing
/// otherwise. `FramedError` and `Stopping` never flush, and a failed final
/// flush delivers nothing.
pub open spec fn resolve_delivery<Resp, E, EE, DE>(
    state: State<E, EE, DE>,
    buffer: Seq<Resp>,
    flush: FlushEvent<EE>,
) -> Seq<Resp> {
    match state {
        State::Error(_) => match flush {
            FlushEvent::Done => buffer,
            _ => Seq::empty(),
        },
        State::FlushAndStop => match flush {
            FlushEvent::Done => buffer,
            _ => Seq::empty(),
        },
        _ => Seq::empty(),
    }
}

/// Resolve a terminal-pending state, or report that its final flush is
/// still pending. The state's error payload is consumed here, exactly once.
pub fn resolve_step<Resp, E, EE, DE>(
    state: State<E, EE, DE>,
    buffer: Vec<Resp>,
    flush: FlushEvent<EE>,
) -> (r: ResolveStep<Resp, E, EE, DE>)
    requires
        !(state is Processing),
    ensures
        match r {
            ResolveStep::StillPending(s2, b2) => {
                &&& resolve_outcome(state, buffer@.len() == 0, flush) is None
                &&& s2 == state
                &&& b2@ == buffer@
            },
            ResolveStep::Resolved(res, d) => {
                &&& Some(res) == resolve_outcome(state, buffer@.len() == 0, flush)
                &&& d@ == resolve_delivery(state, buffer@, flush)
            },
        },
{
    match state {
        State::Processing => vstd::pervasive::unreached(),
        State::Stopping => ResolveStep::Resolved(Ok(()), Vec::new()),
        State::FramedError(e) => ResolveStep::Resolved(Err(e), Vec::new()),
        State::Error(e) => {
            if buffer.len() == 0 {
                ResolveStep::Resolved(Err(e), Vec::new())
            } else {
                match flush {
                    FlushEvent::Pending => ResolveStep::StillPending(State::Error(e), buffer),
                    FlushEvent::Done => ResolveStep::Resolved(Err(e), buffer),
                    // the error already owned outranks the flush failure
                    FlushEvent::Failed(_) => ResolveStep::Resolved(Err(e), Vec::new()),
                }
            }
        },
        State::FlushAndStop => {
            if buffer.len() == 0 {
                ResolveStep::Resolved(Ok(()), Vec::new())
            } else {
                match flush {
                    FlushEvent::Pending => ResolveStep::StillPending(State::FlushAndStop, buffer),
                    FlushEvent::Done => ResolveStep::Resolved(Ok(()), buffer),
                    // the close was intentional: a write failure now is not escalated
                    FlushEvent::Failed(_) => ResolveStep::Resolved(Ok(()), Vec::new()),
                }
            }
        },
    }
}

/// How one whole poll of the dispatcher ends.
pub enum PollStatus<Resp, E, EE, DE> {
    /// No further progress was possible: stay suspended in the given state,
    /// keeping the still-buffered responses, until externally woken.
    Suspended(State<E, EE, DE>, Vec<Resp>),
    /// The dispatcher resolved, with success on a clean stop or close and
    /// with exactly one underlying cause otherwise.
    Resolved(Result<(), FramedDispatcherError<E, EE, DE>>),
}

/// Everything one whole poll of the dispatcher did.
pub struct PollReport<Req, Resp, E, EE, DE> {
    /// The requests admitted to the service during this poll, in arrival
    /// order.
    pub admitted: Vec<Req>,
    /// The responses delivered to the transport during this poll, in
    /// completion order.
    pub written: Vec<Resp>,
    /// How the poll ended.
    pub status: PollStatus<Resp, E, EE, DE>,
}

/// Whether a poll's status reports the given resolution: a suspension
/// carries the state and buffer to resume from and means no resolution yet,
/// and a resolved status carries exactly the resolved result.
pub open spec fn status_agrees<Resp, E, EE, DE>(
    status: PollStatus<Resp, E, EE, DE>,
    outcome: Option<Result<(), FramedDispatcherError<E, EE, DE>>>,
    pend_state: State<E, EE, DE>,
    pend_buf: Seq<Resp>,
) -> bool {
    match status {
        PollStatus::Suspended(s2, b2) => outcome is None && s2 == pend_state && b2@ == pend_buf,
        PollStatus::Resolved(res) => outcome == Some(res),
    }
}

/// One whole poll of the dispatcher, from the events the environment
/// reports: in `Processing`, the read stage runs first and, if it suspends
/// without a state change, the write stage runs; a stage that changes the
/// state hands over to resolution at once. In a terminal-pending state the
/// poll goes straight to resolution. `reads` holds what the service's
/// readiness checks and the transport report to the read loop, in order;
/// `queue` what the result channel delivers to the write stage, in
/// completion order; `buffer` the responses encoded but not yet flushed;
/// `cap` how many responses the write buffer holds before it reports full;
/// and `flush` how the final flush of resolution goes, if one is needed.
pub fn poll_once<Req, Resp, E, EE, DE>(
    state: State<E, EE, DE>,
    reads: Vec<ReadEvent<Req, E, DE>>,
    queue: Vec<Result<InnerMessage<Resp>, E>>,
    buffer: Vec<Resp>,
    cap: usize,
    flush: FlushEvent<EE>,
) -> (r: PollReport<Req, Resp, E, EE, DE>)
    requires
        cap >= 1,
    ensures
        !(state is Processing) ==> {
            &&& r.admitted@ == Seq::<Req>::empty()
            &&& r.written@ == resolve_delivery(state, buffer@, flush)
            &&& status_agrees(
                r.status,
                resolve_outcome(state, buffer@.len() == 0, flush),
                state,
                buffer@,
            )
        },
        state is Processing ==> r.admitted@ == admitted_items(reads@),
        state is Processing ==> match read_outcome::<Req, E, EE, DE>(reads@) {
            ReadOutcome::Entered(s) => {
                &&& r.written@ == resolve_delivery(s, buffer@, flush)
                &&& status_agrees(
                    r.status,
                    resolve_outcome(s, buffer@.len() == 0, flush),
                    s,
                    buffer@,
                )
            },
            ReadOutcome::Suspended => {
                let (wsent, wbuf, wout) = write_run::<Resp, E, EE, DE>(
                    queue@,
                    buffer@,
                    cap as nat,
                    Seq::empty(),
                );
                match wout {
                    WriteOutcome::NoProgress => {
                        &&& r.written@ == wsent
                        &&& r.status matches PollStatus::Suspended(s2, b2) && s2
                            == State::<E, EE, DE>::Processing && b2@ == wbuf
                    },
                    WriteOutcome::Entered(s) => {
                        &&& r.written@ == wsent + resolve_delivery(s, wbuf, flush)
                        &&& status_agrees(
                            r.status,
                            resolve_outcome(s, wbuf.len() == 0, flush),
                            s,
                            wbuf,
                        )
                    },
                }
            },
        },
{
    if !state.is_processing() {
        match resolve_step(state, buffer, flush) {
            ResolveStep::StillPending(s2, b2) => PollReport {
                admitted: Vec::new(),
                written: Vec::new(),
                status: PollStatus::Suspended(s2, b2),
            },
            ResolveStep::Resolved(res, d) => PollReport {
                admitted: Vec::new(),
                written: d,
                status: PollStatus::Resolved(res),
            },
        }
    } else {
        let (admitted, rout) = run_read_stage::<Req, E, EE, DE>(reads);
        proof {
            lemma_read_outcome_not_processing::<Req, E, EE, DE>(reads@);
        }
        match rout {
            ReadOutcome::Entered(s) => {
                match resolve_step(s, buffer, flush) {
                    ResolveStep::StillPending(s2, b2) => PollReport {
                        admitted,
                        written: Vec::new(),
                        status: PollStatus::Suspended(s2, b2),
                    },
                    ResolveStep::Resolved(res, d) => PollReport {
                        admitted,
                        written: d,
                        status: PollStatus::Resolved(res),
                    },
                }
            },
            ReadOutcome::Suspended => {
                let (sent, wbuf, wout) = run_write_stage::<Resp, E, EE, DE>(queue, buffer, cap);
                proof {
                    lemma_write_outcome_not_processing::<Resp, E, EE, DE>(queue@);
                }
                match wout {
                    WriteOutcome::NoProgress => PollReport {
                        admitted,
                        written: sent,
                        status: PollStatus::Suspended(State::Processing, wbuf),
                    },
                    WriteOutcome::Entered(s) => {
                        match resolve_step(s, wbuf, flush) {
                            ResolveStep::StillPending(s2, b2) => PollReport {
                                admitted,
                                written: sent,
                                status: PollStatus::Suspended(s2, b2),
                            },
                            ResolveStep::Resolved(res, mut d) => {
                                let mut written = sent;
                                written.append(&mut d);
                                PollReport {
                                    admitted,
                                    written,
                                    status: PollStatus::Resolved(res),
                                }
                            },
                        }
                    },
                }
            },
        }
    }
}

/// While the transport stays open and the service answers every request,
/// every decoded item is admitted in arrival order and every response the
/// service produces is observed on the transport's outbound side, exactly
/// once, in completion order: when the first `n` read events carry items and
/// the read loop then finds the stream still open, exactly those `n` items
/// are admitted and the read stage suspends; and when every channel value
/// carries a response, one write-stage invocation flushes precisely those
/// responses and ends with an empty buffer and no state change.
pub proof fn lemma_every_response_observed_once<Req, Resp, E, EE, DE>(
    evs: Seq<ReadEvent<Req, E, DE>>,
    q: Seq<Result<InnerMessage<Resp>, E>>,
    cap: nat,
    n: int,
)
    requires
        0 <= n <= evs.len(),
        forall|j: int| 0 <= j < n ==> (#[trigger] evs[j]) matches ReadEvent::Item(_),
        n < evs.len() ==> (evs[n] is NoItem || evs[n] is NotReady),
        forall|i: int| 0 <= i < q.len() ==> (#[trigger] q[i]) matches Result::Ok(
            InnerMessage::Item(_),
        ),
    ensures
        admitted_items(evs).len() == n,
        forall|j: int|
            0 <= j < n ==> ((#[trigger] evs[j]) matches ReadEvent::Item(item) && admitted_items(
                evs,
            )[j] == item),
        read_outcome::<Req, E, EE, DE>(evs) is Suspended,
        ({
            let (sent, buf, out) = write_run::<Resp, E, EE, DE>(
                q,
                Seq::empty(),
                cap,
                Seq::empty(),
            );
            &&& out is NoProgress
            &&& buf.len() == 0
            &&& sent.len() == q.len()
            &&& forall|i: int|
                0 <= i < q.len() ==> ((#[trigger] q[i]) matches Result::Ok(InnerMessage::Item(
                    resp,
                )) && sent[i] == resp)
        }),
{
    lemma_read_stage_exact::<Req, E, EE, DE>(evs, n);
    lemma_every_response_delivered::<Resp, E, EE, DE>(q, cap);
}

/// A dispatcher whose service never becomes ready suspends without decoding
/// further items and without error: with the first readiness check pending,
/// the read stage admits nothing and reports no progress, and with nothing
/// in the result channel the write stage moves nothing and reports no
/// progress either, so a whole poll suspends still processing.
pub proof fn lemma_permanently_unready_poll_suspends<Req, Resp, E, EE, DE>(
    evs: Seq<ReadEvent<Req, E, DE>>,
    cap: nat,
)
    requires
        evs.len() > 0,
        evs[0] is NotReady,
    ensures
        admitted_items(evs).len() == 0,
        read_outcome::<Req, E, EE, DE>(evs) is Suspended,
        write_run::<Resp, E, EE, DE>(Seq::empty(), Seq::empty(), cap, Seq::empty()) == (
            Seq::<Resp>::empty(),
            Seq::<Resp>::empty(),
            WriteOutcome::<E, EE, DE>::NoProgress,
        ),
{
}

/// A framing failure resolves immediately, without a final flush: whatever
/// the write buffer holds and whatever a flush attempt would report, the
/// owned error surfaces at once and no buffered response is delivered.
pub proof fn lemma_framed_error_resolves_immediately<Resp, E, EE, DE>(
    err: FramedDispatcherError<E, EE, DE>,
    buffer: Seq<Resp>,
    flush: FlushEvent<EE>,
)
    ensures
        resolve_outcome(State::FramedError(err), buffer.len() == 0, flush) == Some(
            Result::Err::<(), FramedDispatcherError<E, EE, DE>>(err),
        ),
        resolve_delivery::<Resp, E, EE, DE>(State::FramedError(err), buffer, flush) == Seq::<
            Resp,
        >::empty(),
{
}

/// A service failure, by contrast, flushes the write buffer before its error
/// surfaces: resolution waits while that flush is pending, the buffered
/// responses are delivered when it completes, and the owned error surfaces
/// once it is no longer pending — even if the flush itself failed.
pub proof fn lemma_service_error_flushes_first<Resp, E, EE, DE>(
    err: FramedDispatcherError<E, EE, DE>,
    buffer: Seq<Resp>,
    flush: FlushEvent<EE>,
)
    requires
        buffer.len() > 0,
    ensures
        flush is Pending ==> resolve_outcome(State::Error(err), false, flush) is None,
        !(flush is Pending) ==> resolve_outcome(State::Error(err), false, flush) == Some(
            Result::Err::<(), FramedDispatcherError<E, EE, DE>>(err),
        ),
        flush is Done ==> resolve_delivery::<Resp, E, EE, DE>(State::Error(err), buffer, flush)
            == buffer,
{
}

/// When the service requests a close: the responses completed before the
/// close request — and no later ones — are accepted from the channel, the
/// stage enters `FlushAndStop`, what is buffered is flushed best-effort, and
/// the dispatcher resolves with success whatever that final flush reports,
/// as soon as it is no longer pending.
pub proof fn lemma_close_resolves_ok<Resp, E, EE, DE>(
    q: Seq<Result<InnerMessage<Resp>, E>>,
    k: int,
    buffer: Seq<Resp>,
    flush: FlushEvent<EE>,
)
    requires
        0 <= k < q.len(),
        q[k] matches Result::Ok(InnerMessage::Close),
        forall|j: int| 0 <= j < k ==> (#[trigger] q[j]) matches Result::Ok(InnerMessage::Item(_)),
    ensures
        responses_prefix(q).len() == k,
        forall|j: int|
            0 <= j < k ==> ((#[trigger] q[j]) matches Result::Ok(InnerMessage::Item(resp))
                && responses_prefix(q)[j] == resp),
        write_outcome::<Resp, E, EE, DE>(q) == WriteOutcome::Entered(
            State::<E, EE, DE>::FlushAndStop,
        ),
        buffer.len() == 0 ==> resolve_outcome::<E, EE, DE>(State::FlushAndStop, true, flush)
            == Some(Result::Ok::<(), FramedDispatcherError<E, EE, DE>>(())),
        !(flush is Pending) ==> resolve_outcome::<E, EE, DE>(
            State::FlushAndStop,
            buffer.len() == 0,
            flush,
        ) == Some(Result::Ok::<(), FramedDispatcherError<E, EE, DE>>(())),
        flush is Done ==> resolve_delivery::<Resp, E, EE, DE>(State::FlushAndStop, buffer, flush)
            == buffer,
{
    lemma_write_stage_exact::<Resp, E, EE, DE>(q, k);
}

} // verus!
