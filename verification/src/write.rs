//! The write stage: drain completed outcomes onto the transport.

use vstd::prelude::*;

use crate::dispatch::FlushEvent;
use crate::error::FramedDispatcherError;
use crate::state::State;

verus! {

/// The value a completed request task delivers through the result channel:
/// either a response to write back, or a request by the service to close the
/// connection.
pub enum InnerMessage<T> {
    /// A completed response, to be encoded onto the transport.
    Item(T),
    /// The service asks for the connection to be closed.
    Close,
}

/// The decision the write stage takes on one value pulled from the result
/// channel.
pub enum WriteDecision<Resp, E, EE, DE> {
    /// Encode this response into the write buffer and keep pulling.
    Encode(Resp),
    /// Enter the given state; the invocation made progress and stops.
    Enter(State<E, EE, DE>),
}

/// How one whole invocation of the write stage ends.
pub enum WriteOutcome<E, EE, DE> {
    /// The channel is drained and the buffer flushed: stop without a state
    /// change ("no progress").
    NoProgress,
    /// The stage changed the dispatcher's state ("progress").
    Entered(State<E, EE, DE>),
}

/// The decision taken on one channel value.
pub open spec fn write_pull_spec<Resp, E, EE, DE>(
    msg: Result<InnerMessage<Resp>, E>,
) -> WriteDecision<Resp, E, EE, DE> {
    match msg {
        Result::Ok(InnerMessage::Item(resp)) => WriteDecision::Encode(resp),
        Result::Ok(InnerMessage::Close) => WriteDecision::Enter(State::FlushAndStop),
        Result::Err(e) => WriteDecision::Enter(State::Error(FramedDispatcherError::Service(e))),
    }
}

/// Decide what the write stage does with one value pulled from the result
/// channel: a completed response is encoded into the write buffer; a close
/// request enters `FlushAndStop`; a service error delivered by a task enters
/// `Error`.
pub fn write_pull_step<Resp, E, EE, DE>(
    msg: Result<InnerMessage<Resp>, E>,
) -> (d: WriteDecision<Resp, E, EE, DE>)
    ensures
        d == write_pull_spec::<Resp, E, EE, DE>(msg),
{
    match msg {
        Result::Ok(InnerMessage::Item(resp)) => WriteDecision::Encode(resp),
        Result::Ok(InnerMessage::Close) => WriteDecision::Enter(State::FlushAndStop),
        Result::Err(e) => WriteDecision::Enter(State::Error(FramedDispatcherError::Service(e))),
    }
}

/// Decide what the write stage does when the transport reports how encoding
/// a response went: a failure enters `FramedError` with the encoder's error;
/// success changes nothing.
pub fn encode_result_step<E, EE, DE>(res: Result<(), EE>) -> (d: Option<State<E, EE, DE>>)
    ensures
        match res {
            Result::Ok(_) => d is None,
            Result::Err(e) => d == Some(State::<E, EE, DE>::FramedError(
                FramedDispatcherError::Encoder(e),
            )),
        },
{
    match res {
        Result::Ok(_) => None,
        Result::Err(e) => Some(State::FramedError(FramedDispatcherError::Encoder(e))),
    }
}

/// The decision the write stage takes on the result of a flush attempt.
pub enum FlushDecision<E, EE, DE> {
    /// The flush completed; the buffer may have refilled, so keep going.
    Proceed,
    /// The flush cannot complete yet: stop this invocation without progress.
    Pause,
    /// Enter the given state; the invocation made progress and stops.
    Enter(State<E, EE, DE>),
}

/// Decide what the write stage does with a flush result during normal
/// operation: a pending flush pauses the stage, a completed flush lets it
/// continue, and a failed flush enters `FramedError` with the error on the
/// encoder side.
pub fn flush_write_step<E, EE, DE>(ev: FlushEvent<EE>) -> (d: FlushDecision<E, EE, DE>)
    ensures
        match ev {
            FlushEvent::Done => d is Proceed,
            FlushEvent::Pending => d is Pause,
            FlushEvent::Failed(e) => d == FlushDecision::Enter(State::<E, EE, DE>::FramedError(
                FramedDispatcherError::Encoder(e),
            )),
        },
{
    match ev {
        FlushEvent::Done => FlushDecision::Proceed,
        FlushEvent::Pending => FlushDecision::Pause,
        FlushEvent::Failed(e) => FlushDecision::Enter(State::FramedError(
            FramedDispatcherError::Encoder(e),
        )),
    }
}

/// The responses the write stage accepts from a sequence of channel values:
/// the payloads of the leading run of completed responses, in completion
/// order. Nothing at or after the first close request or task error is
/// accepted.
pub open spec fn responses_prefix<Resp, E>(q: Seq<Result<InnerMessage<Resp>, E>>) -> Seq<Resp>
    decreases q.len(),
{
    if q.len() == 0 {
        Seq::empty()
    } else {
        match q[0] {
            Result::Ok(InnerMessage::Item(resp)) => seq![resp] + responses_prefix(
                q.drop_first(),
            ),
            _ => Seq::empty(),
        }
    }
}

/// How the write stage ends on a sequence of channel values: decided by the
/// first value that is not a completed response, or no progress if the whole
/// sequence is drained.
pub open spec fn write_outcome<Resp, E, EE, DE>(
    q: Seq<Result<InnerMessage<Resp>, E>>,
) -> WriteOutcome<E, EE, DE>
    decreases q.len(),
{
    if q.len() == 0 {
        WriteOutcome::NoProgress
    } else {
        match q[0] {
            Result::Ok(InnerMessage::Item(_)) => write_outcome::<Resp, E, EE, DE>(
                q.drop_first(),
            ),
            Result::Ok(InnerMessage::Close) => WriteOutcome::Entered(State::FlushAndStop),
            Result::Err(e) => WriteOutcome::Entered(State::Error(
                FramedDispatcherError::Service(e),
            )),
        }
    }
}

/// One whole invocation of the write stage over a sequence of channel
/// values, as a function of the write buffer's capacity: what is flushed to
/// the transport, what stays in the buffer, and how the stage ends. The
/// buffer is flushed whenever it is full, and once more when the channel is
/// drained while it is non-empty; a close request or a task error stops the
/// stage at once, leaving the responses accepted since the last flush in the
/// buffer. This run describes an invocation during which every flush the
/// transport is asked for completes; a pending or failing flush is decided
/// by `flush_write_step` instead.
pub open spec fn write_run<Resp, E, EE, DE>(
    q: Seq<Result<InnerMessage<Resp>, E>>,
    buf: Seq<Resp>,
    cap: nat,
    sent: Seq<Resp>,
) -> (Seq<Resp>, Seq<Resp>, WriteOutcome<E, EE, DE>)
    decreases q.len(), buf.len(),
{
    if buf.len() >= cap && buf.len() > 0 {
        write_run(q, Seq::empty(), cap, sent + buf)
    } else if q.len() == 0 {
        if buf.len() > 0 {
            write_run(q, Seq::empty(), cap, sent + buf)
        } else {
            (sent, buf, WriteOutcome::NoProgress)
        }
    } else {
        match q[0] {
            Result::Ok(InnerMessage::Item(resp)) => write_run(
                q.drop_first(),
                buf.push(resp),
                cap,
                sent,
            ),
            Result::Ok(InnerMessage::Close) => (
                sent,
                buf,
                WriteOutcome::Entered(State::FlushAndStop),
            ),
            Result::Err(e) => (
                sent,
                buf,
                WriteOutcome::Entered(State::Error(FramedDispatcherError::Service(e))),
            ),
        }
    }
}

/// Everything `write_run` does to the responses, summed up: the responses it
/// flushes followed by those it leaves buffered are exactly those already
/// flushed or buffered followed by the accepted prefix of the channel, the
/// outcome is decided by the first channel value that is not a completed
/// response, and when the stage ends without progress the buffer has been
/// flushed empty.
pub proof fn lemma_write_run_content<Resp, E, EE, DE>(
    q: Seq<Result<InnerMessage<Resp>, E>>,
    buf: Seq<Resp>,
    cap: nat,
    sent: Seq<Resp>,
)
    ensures
        ({
            let (s2, b2, out) = write_run::<Resp, E, EE, DE>(q, buf, cap, sent);
            &&& s2 + b2 == sent + buf + responses_prefix(q)
            &&& out == write_outcome::<Resp, E, EE, DE>(q)
            &&& (out is NoProgress ==> b2.len() == 0)
        }),
    decreases q.len(), buf.len(),
{
    if buf.len() >= cap && buf.len() > 0 {
        lemma_write_run_content::<Resp, E, EE, DE>(q, Seq::empty(), cap, sent + buf);
        let (s2, b2, _) = write_run::<Resp, E, EE, DE>(q, buf, cap, sent);
        assert(s2 + b2 =~= sent + buf + responses_prefix(q));
    } else if q.len() == 0 {
        if buf.len() > 0 {
            lemma_write_run_content::<Resp, E, EE, DE>(q, Seq::empty(), cap, sent + buf);
            let (s2, b2, _) = write_run::<Resp, E, EE, DE>(q, buf, cap, sent);
            assert(s2 + b2 =~= sent + buf + responses_prefix(q));
        } else {
            assert(sent + buf =~= sent + buf + responses_prefix(q));
        }
    } else {
        match q[0] {
            Result::Ok(InnerMessage::Item(resp)) => {
                lemma_write_run_content::<Resp, E, EE, DE>(
                    q.drop_first(),
                    buf.push(resp),
                    cap,
                    sent,
                );
                let (s2, b2, _) = write_run::<Resp, E, EE, DE>(q, buf, cap, sent);
                assert(responses_prefix(q) =~= seq![resp] + responses_prefix(q.drop_first()));
                assert(s2 + b2 =~= sent + buf + responses_prefix(q));
            },
            _ => {
                assert(sent + buf =~= sent + buf + responses_prefix(q));
            },
        }
    }
}

/// A state the write stage enters is always terminal-pending, never
/// `Processing`.
pub proof fn lemma_write_outcome_not_processing<Resp, E, EE, DE>(
    q: Seq<Result<InnerMessage<Resp>, E>>,
)
    ensures
        write_outcome::<Resp, E, EE, DE>(q) matches WriteOutcome::Entered(s) ==> !(s
            is Processing),
    decreases q.len(),
{
    if q.len() > 0 {
        match q[0] {
            Result::Ok(InnerMessage::Item(_)) => {
                lemma_write_outcome_not_processing::<Resp, E, EE, DE>(q.drop_first());
            },
            _ => {},
        }
    }
}

/// How a single channel value ends the write stage, when the stage reaches
/// it. Only meaningful for values that do not carry a completed response.
pub open spec fn write_step_entered<Resp, E, EE, DE>(
    msg: Result<InnerMessage<Resp>, E>,
) -> WriteOutcome<E, EE, DE> {
    match msg {
        Result::Ok(InnerMessage::Item(_)) => WriteOutcome::NoProgress,
        Result::Ok(InnerMessage::Close) => WriteOutcome::Entered(State::FlushAndStop),
        Result::Err(e) => WriteOutcome::Entered(State::Error(FramedDispatcherError::Service(e))),
    }
}

/// What one invocation of the write stage accepts, exactly, when the first
/// `k` channel values carry completed responses and the value after them (if
/// any) does not: precisely those `k` responses, in completion order, and
/// the `k`-th value decides how the invocation ends.
pub proof fn lemma_write_stage_exact<Resp, E, EE, DE>(
    q: Seq<Result<InnerMessage<Resp>, E>>,
    k: int,
)
    requires
        0 <= k <= q.len(),
        forall|j: int| 0 <= j < k ==> (#[trigger] q[j]) matches Result::Ok(InnerMessage::Item(_)),
        k < q.len() ==> !(q[k] matches Result::Ok(InnerMessage::Item(_))),
    ensures
        responses_prefix(q).len() == k,
        forall|j: int|
            0 <= j < k ==> ((#[trigger] q[j]) matches Result::Ok(InnerMessage::Item(resp))
                && responses_prefix(q)[j] == resp),
        k == q.len() ==> write_outcome::<Resp, E, EE, DE>(q) is NoProgress,
        k < q.len() ==> write_outcome::<Resp, E, EE, DE>(q) == write_step_entered::<
            Resp,
            E,
            EE,
            DE,
        >(q[k]),
    decreases k,
{
    if k > 0 {
        let rest = q.drop_first();
        assert forall|j: int|
            0 <= j < k - 1 implies (#[trigger] rest[j]) matches Result::Ok(InnerMessage::Item(
            _,
        )) by {
            assert(rest[j] == q[j + 1]);
        }
        lemma_write_stage_exact::<Resp, E, EE, DE>(rest, k - 1);
        assert forall|j: int|
            0 <= j < k implies ((#[trigger] q[j]) matches Result::Ok(InnerMessage::Item(resp))
            && responses_prefix(q)[j] == resp) by {
            if j > 0 {
                assert(rest[j - 1] == q[j]);
            }
        }
    }
}

/// Every completed response is delivered to the transport exactly once, in
/// completion order: when every channel value carries a response, one whole
/// invocation of the write stage flushes precisely those responses, leaves
/// the buffer empty, and ends without a state change.
pub proof fn lemma_every_response_delivered<Resp, E, EE, DE>(
    q: Seq<Result<InnerMessage<Resp>, E>>,
    cap: nat,
)
    requires
        forall|i: int| 0 <= i < q.len() ==> (#[trigger] q[i]) matches Result::Ok(
            InnerMessage::Item(_),
        ),
    ensures
        ({
            let (sent, buf, out) = write_run::<Resp, E, EE, DE>(
                q,
                Seq::empty(),
                cap,
                Seq::empty(),
            );
            &&& out is NoProgress
            &&& buf.len() == 0
            &&& sent.len() == q.len()
            &&& forall|i: int|
                0 <= i < q.len() ==> ((#[trigger] q[i]) matches Result::Ok(InnerMessage::Item(
                    resp,
                )) && sent[i] == resp)
        }),
{
    lemma_write_run_content::<Resp, E, EE, DE>(q, Seq::empty(), cap, Seq::empty());
    lemma_write_stage_exact::<Resp, E, EE, DE>(q, q.len() as int);
    let (sent, buf, out) = write_run::<Resp, E, EE, DE>(q, Seq::empty(), cap, Seq::empty());
    assert(sent + buf =~= sent);
    assert(Seq::empty() + Seq::<Resp>::empty() + responses_prefix(q) =~= responses_prefix(q));
}

/// Run one invocation of the write stage. `queue` holds the values the
/// result channel delivers during the invocation, in completion order;
/// `buffer` holds responses already encoded but not yet flushed; `cap` is
/// the number of responses the write buffer holds before it reports full.
/// Returns the responses flushed to the transport, the responses left in
/// the buffer, and how the invocation ended; `write_run` says exactly which.
/// Every flush asked for during this run completes.
pub fn run_write_stage<Resp, E, EE, DE>(
    queue: Vec<Result<InnerMessage<Resp>, E>>,
    buffer: Vec<Resp>,
    cap: usize,
) -> (r: (Vec<Resp>, Vec<Resp>, WriteOutcome<E, EE, DE>))
    requires
        cap >= 1,
    ensures
        (r.0@, r.1@, r.2) == write_run::<Resp, E, EE, DE>(
            queue@,
            buffer@,
            cap as nat,
            Seq::empty(),
        ),
        r.0@ + r.1@ == buffer@ + responses_prefix(queue@),
        r.2 == write_outcome::<Resp, E, EE, DE>(queue@),
        r.2 is NoProgress ==> r.1@.len() == 0,
{
    proof {
        lemma_write_run_content::<Resp, E, EE, DE>(
            queue@,
            buffer@,
            cap as nat,
            Seq::empty(),
        );
        assert(Seq::<Resp>::empty() + buffer@ + responses_prefix(queue@) =~= buffer@
            + responses_prefix(queue@));
    }
    write_rec(queue, buffer, cap, Vec::new())
}

/// The recursion behind `run_write_stage`, carrying the responses flushed so
/// far.
fn write_rec<Resp, E, EE, DE>(
    queue: Vec<Result<InnerMessage<Resp>, E>>,
    buffer: Vec<Resp>,
    cap: usize,
    sent: Vec<Resp>,
) -> (r: (Vec<Resp>, Vec<Resp>, WriteOutcome<E, EE, DE>))
    requires
        cap >= 1,
    ensures
        (r.0@, r.1@, r.2) == write_run::<Resp, E, EE, DE>(queue@, buffer@, cap as nat, sent@),
    decreases queue@.len(), buffer@.len(),
{
    let ghost q0 = queue@;
    let ghost b0 = buffer@;
    let ghost s0 = sent@;
    let mut queue = queue;
    let mut buffer = buffer;
    let mut sent = sent;
    if buffer.len() >= cap {
        // the write buffer reports full: flush it before pulling more
        sent.append(&mut buffer);
        write_rec(queue, buffer, cap, sent)
    } else if queue.len() == 0 {
        if buffer.len() > 0 {
            // the channel is drained but responses are still buffered: flush
            sent.append(&mut buffer);
            write_rec(queue, buffer, cap, sent)
        } else {
            (sent, buffer, WriteOutcome::NoProgress)
        }
    } else {
        let msg = queue.remove(0);
        proof {
            assert(queue@ =~= q0.drop_first());
        }
        match write_pull_step::<Resp, E, EE, DE>(msg) {
            WriteDecision::Encode(resp) => {
                buffer.push(resp);
                write_rec(queue, buffer, cap, sent)
            },
            WriteDecision::Enter(s) => (sent, buffer, WriteOutcome::Entered(s)),
        }
    }
}

} // verus!
