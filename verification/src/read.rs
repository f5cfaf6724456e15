//! The read stage: admit decoded items to the service while it is ready.

use vstd::prelude::*;

use crate::error::FramedDispatcherError;
use crate::state::State;

verus! {

/// What the environment reports for one iteration of the read loop: first
/// the service's readiness check, then (when ready) the transport's next
/// decoded item.
pub enum ReadEvent<Req, E, DE> {
    /// The service's readiness check is still pending.
    NotReady,
    /// The service's readiness check failed.
    ReadyFailed(E),
    /// The service is ready and one decoded item is available.
    Item(Req),
    /// The service is ready but no complete frame has arrived yet.
    NoItem,
    /// The service is ready and the incoming bytes were malformed.
    DecodeFailed(DE),
    /// The service is ready and the byte stream ended cleanly.
    StreamEnded,
}

/// The decision the read stage takes on one event.
pub enum ReadDecision<Req, E, EE, DE> {
    /// Hand the item to the service, let its task run concurrently, and keep
    /// reading.
    Admit(Req),
    /// No progress is possible now: yield to the scheduler.
    Suspend,
    /// Enter the given state; the invocation made progress and stops.
    Enter(State<E, EE, DE>),
}

/// How one whole invocation of the read stage ends.
pub enum ReadOutcome<E, EE, DE> {
    /// The stage stopped without a state change ("no progress").
    Suspended,
    /// The stage changed the dispatcher's state ("progress").
    Entered(State<E, EE, DE>),
}

/// The decision taken on one read event.
pub open spec fn read_step_spec<Req, E, EE, DE>(
    ev: ReadEvent<Req, E, DE>,
) -> ReadDecision<Req, E, EE, DE> {
    match ev {
        ReadEvent::NotReady => ReadDecision::Suspend,
        ReadEvent::ReadyFailed(e) => ReadDecision::Enter(
            State::Error(FramedDispatcherError::Service(e)),
        ),
        ReadEvent::Item(item) => ReadDecision::Admit(item),
        ReadEvent::NoItem => ReadDecision::Suspend,
        ReadEvent::DecodeFailed(e) => ReadDecision::Enter(
            State::FramedError(FramedDispatcherError::Decoder(e)),
        ),
        ReadEvent::StreamEnded => ReadDecision::Enter(State::Stopping),
    }
}

/// Decide what one iteration of the read loop does with one event: an
/// available item is admitted; a pending readiness check or a pending frame
/// suspends the stage; a failed readiness check, a decode failure and a
/// clean end of stream each enter their terminal state.
pub fn read_step<Req, E, EE, DE>(ev: ReadEvent<Req, E, DE>) -> (d: ReadDecision<Req, E, EE, DE>)
    ensures
        d == read_step_spec::<Req, E, EE, DE>(ev),
{
    match ev {
        ReadEvent::NotReady => ReadDecision::Suspend,
        ReadEvent::ReadyFailed(e) => ReadDecision::Enter(
            State::Error(FramedDispatcherError::Service(e)),
        ),
        ReadEvent::Item(item) => ReadDecision::Admit(item),
        ReadEvent::NoItem => ReadDecision::Suspend,
        ReadEvent::DecodeFailed(e) => ReadDecision::Enter(
            State::FramedError(FramedDispatcherError::Decoder(e)),
        ),
        ReadEvent::StreamEnded => ReadDecision::Enter(State::Stopping),
    }
}

/// The items the read stage admits from a sequence of events: the payloads
/// of the leading run of `Item` events, in arrival order. Nothing at or
/// after the first non-item event is admitted.
pub open spec fn admitted_items<Req, E, DE>(evs: Seq<ReadEvent<Req, E, DE>>) -> Seq<Req>
    decreases evs.len(),
{
    if evs.len() == 0 {
        Seq::empty()
    } else {
        match evs[0] {
            ReadEvent::Item(item) => seq![item] + admitted_items(evs.drop_first()),
            _ => Seq::empty(),
        }
    }
}

/// How the read stage ends on a sequence of events: decided by the first
/// non-item event, or suspended if every event carries an item.
pub open spec fn read_outcome<Req, E, EE, DE>(
    evs: Seq<ReadEvent<Req, E, DE>>,
) -> ReadOutcome<E, EE, DE>
    decreases evs.len(),
{
    if evs.len() == 0 {
        ReadOutcome::Suspended
    } else {
        match evs[0] {
            ReadEvent::Item(_) => read_outcome::<Req, E, EE, DE>(evs.drop_first()),
            ReadEvent::NotReady => ReadOutcome::Suspended,
            ReadEvent::NoItem => ReadOutcome::Suspended,
            ReadEvent::ReadyFailed(e) => ReadOutcome::Entered(
                State::Error(FramedDispatcherError::Service(e)),
            ),
            ReadEvent::DecodeFailed(e) => ReadOutcome::Entered(
                State::FramedError(FramedDispatcherError::Decoder(e)),
            ),
            ReadEvent::StreamEnded => ReadOutcome::Entered(State::Stopping),
        }
    }
}

/// A state the read stage enters is always terminal-pending, never
/// `Processing`.
pub proof fn lemma_read_outcome_not_processing<Req, E, EE, DE>(evs: Seq<ReadEvent<Req, E, DE>>)
    ensures
        read_outcome::<Req, E, EE, DE>(evs) matches ReadOutcome::Entered(s) ==> !(s is Processing),
    decreases evs.len(),
{
    if evs.len() > 0 {
        match evs[0] {
            ReadEvent::Item(_) => {
                lemma_read_outcome_not_processing::<Req, E, EE, DE>(evs.drop_first());
            },
            _ => {},
        }
    }
}

/// What one invocation of the read stage does, exactly, when the first `n`
/// events carry items and the event after them (if any) does not: the items
/// of those `n` events are admitted, in arrival order, and the `n`-th event
/// decides how the invocation ends.
pub proof fn lemma_read_stage_exact<Req, E, EE, DE>(evs: Seq<ReadEvent<Req, E, DE>>, n: int)
    requires
        0 <= n <= evs.len(),
        forall|j: int| 0 <= j < n ==> (#[trigger] evs[j]) matches ReadEvent::Item(_),
        n < evs.len() ==> !(evs[n] matches ReadEvent::Item(_)),
    ensures
        admitted_items(evs).len() == n,
        forall|j: int| 0 <= j < n ==> ((#[trigger] evs[j]) matches ReadEvent::Item(item) && admitted_items(
            evs,
        )[j] == item),
        n == evs.len() ==> read_outcome::<Req, E, EE, DE>(evs) is Suspended,
        n < evs.len() ==> read_outcome::<Req, E, EE, DE>(evs) == read_step_entered::<
            Req,
            E,
            EE,
            DE,
        >(evs[n]),
    decreases n,
{
    if n > 0 {
        let rest = evs.drop_first();
        assert forall|j: int| 0 <= j < n - 1 implies (#[trigger] rest[j]) matches ReadEvent::Item(
            _,
        ) by {
            assert(rest[j] == evs[j + 1]);
        }
        lemma_read_stage_exact::<Req, E, EE, DE>(rest, n - 1);
        assert forall|j: int| 0 <= j < n implies ((#[trigger] evs[j]) matches ReadEvent::Item(item)
            && admitted_items(evs)[j] == item) by {
            if j > 0 {
                assert(rest[j - 1] == evs[j]);
            }
        }
    }
}

/// How a single event ends the read stage, when the stage reaches it. Only
/// meaningful for events that do not carry an item.
pub open spec fn read_step_entered<Req, E, EE, DE>(
    ev: ReadEvent<Req, E, DE>,
) -> ReadOutcome<E, EE, DE> {
    match ev {
        ReadEvent::Item(_) => ReadOutcome::Suspended,
        ReadEvent::NotReady => ReadOutcome::Suspended,
        ReadEvent::NoItem => ReadOutcome::Suspended,
        ReadEvent::ReadyFailed(e) => ReadOutcome::Entered(
            State::Error(FramedDispatcherError::Service(e)),
        ),
        ReadEvent::DecodeFailed(e) => ReadOutcome::Entered(
            State::FramedError(FramedDispatcherError::Decoder(e)),
        ),
        ReadEvent::StreamEnded => ReadOutcome::Entered(State::Stopping),
    }
}

/// A decode failure at the `n`-th event admits nothing at or after it: at
/// most the `n` items decoded before the failure reach the service, and when
/// everything before the failure decoded cleanly the stage enters
/// `FramedError` carrying exactly the decoder's error.
pub proof fn lemma_decode_failure_stops_admission<Req, E, EE, DE>(
    evs: Seq<ReadEvent<Req, E, DE>>,
    n: int,
)
    requires
        0 <= n < evs.len(),
        evs[n] matches ReadEvent::DecodeFailed(_),
    ensures
        admitted_items(evs).len() <= n,
        (forall|j: int| 0 <= j < n ==> (#[trigger] evs[j]) matches ReadEvent::Item(_)) ==> {
            &&& admitted_items(evs).len() == n
            &&& evs[n] matches ReadEvent::DecodeFailed(e) && read_outcome::<Req, E, EE, DE>(evs)
                == ReadOutcome::Entered(State::FramedError(FramedDispatcherError::<
                E,
                EE,
                DE,
            >::Decoder(e)))
        },
    decreases n,
{
    // when everything before the failure decoded cleanly, the stage is exact
    if forall|j: int| 0 <= j < n ==> (#[trigger] evs[j]) matches ReadEvent::Item(_) {
        lemma_read_stage_exact::<Req, E, EE, DE>(evs, n);
    } else {
        // otherwise an even earlier event already stopped admission
        if n > 0 {
            match evs[0] {
                ReadEvent::Item(_) => {
                    let rest = evs.drop_first();
                    assert(rest[n - 1] == evs[n]);
                    lemma_decode_failure_stops_admission::<Req, E, EE, DE>(rest, n - 1);
                },
                _ => {
                    assert(admitted_items(evs).len() == 0);
                },
            }
        }
    }
}

/// Run one invocation of the read stage over the events the environment
/// reports, in order. Items are admitted (in strict arrival order) until the
/// first event that is not an item; that event decides how the invocation
/// ends. Events past that point are never consumed; an exhausted event
/// sequence suspends, as a pending frame would.
pub fn run_read_stage<Req, E, EE, DE>(
    events: Vec<ReadEvent<Req, E, DE>>,
) -> (r: (Vec<Req>, ReadOutcome<E, EE, DE>))
    ensures
        r.0@ == admitted_items(events@),
        r.1 == read_outcome::<Req, E, EE, DE>(events@),
    decreases events@.len(),
{
    let mut rest = events;
    if rest.len() == 0 {
        return (Vec::new(), ReadOutcome::Suspended);
    }
    let ev = rest.remove(0);
    match read_step::<Req, E, EE, DE>(ev) {
        ReadDecision::Admit(item) => {
            let (mut admitted, out) = run_read_stage::<Req, E, EE, DE>(rest);
            admitted.insert(0, item);
            proof {
                assert(rest@ =~= events@.drop_first());
                assert(admitted@ =~= seq![item] + admitted_items(rest@));
            }
            (admitted, out)
        },
        ReadDecision::Suspend => (Vec::new(), ReadOutcome::Suspended),
        ReadDecision::Enter(s) => (Vec::new(), ReadOutcome::Entered(s)),
    }
}

} // verus!
