//! The background loop of one subscription, as a state machine.
//!
//! The loop watches two sources: the backend's stream of results and the
//! cancellation signal. Whoever runs the loop polls both, tells the machine
//! what it found, and does what the machine answers. A stream item that is
//! ready is always handled first, so a cancellation that arrives while
//! results keep coming takes effect only once the stream has nothing ready.

use crate::error::{ClientError, ClientErrorView};
use crate::result::{
    delivery_of, encode_result, Delivery, DeliveryView, EncodedResult, EncodedView,
    FunctionResult,
};
use vstd::prelude::*;
use vstd::string::StringExecFns;

verus! {

/// Where the loop stands.
#[derive(Debug, Clone, Copy, PartialEq, Eq, Structural)]
pub enum Phase {
    /// The loop is live. `cancel_seen` records a cancellation that was found
    /// ready while a stream item took precedence.
    Running { cancel_seen: bool },
    /// The loop has honoured a cancellation. Terminal.
    Canceled,
    /// The loop has given up on a fault of the stream. Terminal.
    Aborted,
}

/// What the cancellation channel has ready.
#[derive(Debug, Clone, Copy, PartialEq, Eq, Structural)]
pub enum CancelPoll {
    /// Nothing: the handle is alive and has not been cancelled.
    Pending,
    /// The signal that the handle sends when it is cancelled.
    Signalled,
    /// The news that the handle was dropped without being cancelled. Nobody
    /// can cancel any more, so this counts as a cancellation.
    HandleDropped,
}

impl CancelPoll {
    /// Whether the loop has been asked to stop.
    pub open spec fn ready(self) -> bool {
        self != CancelPoll::Pending
    }

    /// Whether the loop has been asked to stop.
    #[verifier::when_used_as_spec(ready)]
    pub fn is_ready(self) -> (ready: bool)
        ensures
            ready == self.ready(),
    {
        match self {
            CancelPoll::Pending => false,
            _ => true,
        }
    }
}

/// What the backend's stream has ready.
#[derive(Debug)]
pub enum StreamPoll {
    /// Nothing yet.
    Pending,
    /// The next result.
    Item(FunctionResult),
    /// The end of the stream: the connection was dropped under the
    /// subscription.
    Closed,
}

/// What the stream has ready, with a result's payloads already encoded.
#[derive(Debug, PartialEq, Eq)]
pub enum Arrival {
    /// Nothing yet.
    Nothing,
    /// The next result.
    Item(EncodedResult),
    /// A result whose payload could not be encoded, with the failure.
    Unencodable(ClientError),
    /// The end of the stream.
    Closed,
}

/// [`Arrival`] with its texts as character sequences; of a failure only the
/// text is kept.
pub enum ArrivalView {
    Nothing,
    Item(EncodedView),
    Unencodable(Seq<char>),
    Closed,
}

impl View for Arrival {
    type V = ArrivalView;

    open spec fn view(&self) -> ArrivalView {
        match *self {
            Arrival::Nothing => ArrivalView::Nothing,
            Arrival::Item(encoded) => ArrivalView::Item(encoded@),
            Arrival::Unencodable(error) => ArrivalView::Unencodable(error_text(error@)),
            Arrival::Closed => ArrivalView::Closed,
        }
    }
}

/// The text an error carries, whatever its kind.
pub open spec fn error_text(error: ClientErrorView) -> Seq<char> {
    match error {
        ClientErrorView::InternalError { msg } => msg,
        ClientErrorView::ConvexError { data } => data,
        ClientErrorView::ServerError { msg } => msg,
    }
}

impl StreamPoll {
    /// What the loop makes of this poll once payloads are encoded.
    pub open spec fn arrival(self) -> ArrivalView {
        match self {
            StreamPoll::Pending => ArrivalView::Nothing,
            StreamPoll::Closed => ArrivalView::Closed,
            StreamPoll::Item(result) => match result.encoding() {
                Ok(encoded) => ArrivalView::Item(encoded),
                Err(failure) => ArrivalView::Unencodable(failure),
            },
        }
    }
}

/// What the loop must do next.
#[derive(Debug, PartialEq, Eq)]
pub enum LoopAction {
    /// Wait until one of the two sources has something ready, then ask again.
    Wait,
    /// Make this subscriber call, then ask again.
    Deliver(Delivery),
    /// Leave the loop quietly; nothing more is delivered.
    Stop,
    /// Leave the loop on a fault that is fatal to this subscription. The
    /// fault is not reported to the subscriber.
    Abort(ClientError),
}

/// [`LoopAction`] with its texts as character sequences; of a fault only the
/// text is kept.
pub enum ActionView {
    Wait,
    Deliver(DeliveryView),
    Stop,
    Abort(Seq<char>),
}

impl View for LoopAction {
    type V = ActionView;

    open spec fn view(&self) -> ActionView {
        match *self {
            LoopAction::Wait => ActionView::Wait,
            LoopAction::Deliver(delivery) => ActionView::Deliver(delivery@),
            LoopAction::Stop => ActionView::Stop,
            LoopAction::Abort(error) => ActionView::Abort(error_text(error@)),
        }
    }
}

/// The fault reported when the stream ends under a live subscription.
pub open spec fn closed_fault() -> Seq<char> {
    "Client dropped prematurely"@
}

/// One turn of the loop: from where it stands and what the two sources have
/// ready, to where it stands next and what must be done.
///
/// While running, a ready stream item is delivered whether or not a
/// cancellation is ready too; the cancellation is remembered. A fault of the
/// stream aborts. Only when the stream has nothing ready does a cancellation,
/// ready now or remembered, stop the loop. Once stopped or aborted the loop
/// stays so and never delivers again.
pub open spec fn next(phase: Phase, arrival: ArrivalView, cancel: CancelPoll) -> (
    Phase,
    ActionView,
) {
    match phase {
        Phase::Running { cancel_seen } => match arrival {
            ArrivalView::Item(encoded) => (
                Phase::Running { cancel_seen: cancel_seen || cancel.ready() },
                ActionView::Deliver(encoded.delivery()),
            ),
            ArrivalView::Unencodable(failure) => (Phase::Aborted, ActionView::Abort(failure)),
            ArrivalView::Closed => (Phase::Aborted, ActionView::Abort(closed_fault())),
            ArrivalView::Nothing => if cancel_seen || cancel.ready() {
                (Phase::Canceled, ActionView::Stop)
            } else {
                (phase, ActionView::Wait)
            },
        },
        Phase::Canceled => (Phase::Canceled, ActionView::Stop),
        Phase::Aborted => (Phase::Aborted, ActionView::Stop),
    }
}

/// Encodes what the stream has ready, so that the loop can act on it.
pub fn observe(stream: StreamPoll) -> (arrival: Arrival)
    ensures
        arrival@ == stream.arrival(),
{
    match stream {
        StreamPoll::Pending => Arrival::Nothing,
        StreamPoll::Closed => Arrival::Closed,
        StreamPoll::Item(result) => match encode_result(result) {
            Ok(encoded) => Arrival::Item(encoded),
            Err(error) => Arrival::Unencodable(error),
        },
    }
}

/// The background loop of one subscription.
#[derive(Debug)]
pub struct Subscription {
    phase: Phase,
}

impl Subscription {
    /// Where the loop stands.
    pub closed spec fn spec_phase(&self) -> Phase {
        self.phase
    }

    /// A loop that has just been started: running, no cancellation seen.
    pub fn new() -> (subscription: Subscription)
        ensures
            subscription.spec_phase() == (Phase::Running { cancel_seen: false }),
    {
        Subscription { phase: Phase::Running { cancel_seen: false } }
    }

    /// Where the loop stands.
    #[verifier::when_used_as_spec(spec_phase)]
    pub fn phase(&self) -> (phase: Phase)
        ensures
            phase == self.spec_phase(),
    {
        self.phase
    }

    /// Takes one turn on an arrival whose payloads are already encoded.
    pub fn advance(&mut self, arrival: Arrival, cancel: CancelPoll) -> (action: LoopAction)
        ensures
            (final(self).phase(), action@) == next(old(self).phase(), arrival@, cancel),
    {
        match self.phase {
            Phase::Running { cancel_seen } => match arrival {
                Arrival::Item(encoded) => {
                    self.phase = Phase::Running { cancel_seen: cancel_seen || cancel.is_ready() };
                    LoopAction::Deliver(delivery_of(encoded))
                },
                Arrival::Unencodable(error) => {
                    self.phase = Phase::Aborted;
                    LoopAction::Abort(error)
                },
                Arrival::Closed => {
                    self.phase = Phase::Aborted;
                    LoopAction::Abort(
                        ClientError::InternalError {
                            msg: String::from_str("Client dropped prematurely"),
                        },
                    )
                },
                Arrival::Nothing => {
                    if cancel_seen || cancel.is_ready() {
                        self.phase = Phase::Canceled;
                        LoopAction::Stop
                    } else {
                        LoopAction::Wait
                    }
                },
            },
            Phase::Canceled => LoopAction::Stop,
            Phase::Aborted => LoopAction::Stop,
        }
    }

    /// Takes one turn on what the two sources have ready.
    pub fn step(&mut self, stream: StreamPoll, cancel: CancelPoll) -> (action: LoopAction)
        ensures
            (final(self).phase(), action@) == next(old(self).phase(), stream.arrival(), cancel),
    {
        self.advance(observe(stream), cancel)
    }
}

/// The loop's answers to a series of turns, taken one after the other from
/// `phase`. Each turn says what the stream had ready and what the
/// cancellation channel had.
pub open spec fn answers(phase: Phase, turns: Seq<(ArrivalView, CancelPoll)>) -> Seq<ActionView>
    decreases turns.len(),
{
    if turns.len() == 0 {
        Seq::empty()
    } else {
        let (after, action) = next(phase, turns[0].0, turns[0].1);
        seq![action] + answers(after, turns.drop_first())
    }
}

/// Where the loop stands after a series of turns from `phase`.
pub open spec fn phase_after(phase: Phase, turns: Seq<(ArrivalView, CancelPoll)>) -> Phase
    decreases turns.len(),
{
    if turns.len() == 0 {
        phase
    } else {
        phase_after(next(phase, turns[0].0, turns[0].1).0, turns.drop_first())
    }
}

/// Whether the loop is still live.
pub open spec fn running(phase: Phase) -> bool {
    phase is Running
}

/// Whether an answer ends the loop.
pub open spec fn leaves(action: ActionView) -> bool {
    action is Stop || action is Abort
}

/// Every turn gets exactly one answer.
pub proof fn lemma_one_answer_per_turn(phase: Phase, turns: Seq<(ArrivalView, CancelPoll)>)
    ensures
        answers(phase, turns).len() == turns.len(),
    decreases turns.len(),
{
    if turns.len() > 0 {
        lemma_one_answer_per_turn(next(phase, turns[0].0, turns[0].1).0, turns.drop_first());
    }
}

/// A loop that has stopped or aborted stays where it is and answers every
/// further turn with `Stop`: it never delivers again.
pub proof fn lemma_ended_loop_is_silent(phase: Phase, turns: Seq<(ArrivalView, CancelPoll)>)
    requires
        !running(phase),
    ensures
        phase_after(phase, turns) == phase,
        answers(phase, turns).len() == turns.len(),
        forall|k: int| 0 <= k < turns.len() ==> answers(phase, turns)[k] == ActionView::Stop,
    decreases turns.len(),
{
    if turns.len() > 0 {
        lemma_ended_loop_is_silent(phase, turns.drop_first());
    }
}

/// Once the loop has answered a turn with `Stop` or `Abort`, as it does when
/// it observes a cancellation, every later answer is `Stop`: no update and no
/// error is delivered after that turn.
pub proof fn lemma_nothing_is_delivered_after_leaving(
    phase: Phase,
    turns: Seq<(ArrivalView, CancelPoll)>,
    left_at: int,
    later: int,
)
    requires
        0 <= left_at < later < turns.len(),
        leaves(answers(phase, turns)[left_at]),
    ensures
        answers(phase, turns)[later] == ActionView::Stop,
    decreases turns.len(),
{
    let (after, action) = next(phase, turns[0].0, turns[0].1);
    let rest = turns.drop_first();
    lemma_one_answer_per_turn(after, rest);
    if left_at == 0 {
        lemma_ended_loop_is_silent(after, rest);
    } else {
        lemma_nothing_is_delivered_after_leaving(after, rest, left_at - 1, later - 1);
    }
}

/// With no cancellation in sight, a running loop delivers every result in
/// the order of arrival and waits whenever the stream has nothing ready: the
/// `k`-th answer is the delivery of the `k`-th arrival.
pub proof fn lemma_deliveries_follow_arrivals(turns: Seq<(ArrivalView, CancelPoll)>)
    requires
        forall|k: int|
            0 <= k < turns.len() ==> !(#[trigger] turns[k]).1.ready() && (turns[k].0 is Item
                || turns[k].0 is Nothing),
    ensures
        phase_after(Phase::Running { cancel_seen: false }, turns) == (Phase::Running {
            cancel_seen: false,
        }),
        answers(Phase::Running { cancel_seen: false }, turns).len() == turns.len(),
        forall|k: int|
            0 <= k < turns.len() ==> #[trigger] answers(
                Phase::Running { cancel_seen: false },
                turns,
            )[k] == match turns[k].0 {
                ArrivalView::Item(encoded) => ActionView::Deliver(encoded.delivery()),
                _ => ActionView::Wait,
            },
    decreases turns.len(),
{
    if turns.len() > 0 {
        let rest = turns.drop_first();
        assert forall|k: int| 0 <= k < rest.len() implies !(#[trigger] rest[k]).1.ready() && (
        rest[k].0 is Item || rest[k].0 is Nothing) by {
            assert(rest[k] == turns[k + 1]);
        }
        lemma_deliveries_follow_arrivals(rest);
        let start = Phase::Running { cancel_seen: false };
        assert forall|k: int| 0 <= k < turns.len() implies #[trigger] answers(start, turns)[k]
            == match turns[k].0 {
            ArrivalView::Item(encoded) => ActionView::Deliver(encoded.delivery()),
            _ => ActionView::Wait,
        } by {
            if k > 0 {
                assert(rest[k - 1] == turns[k]);
                assert(answers(start, turns)[k] == answers(start, rest)[k - 1]);
            }
        }
    }
}

/// Results that are ready are delivered, in order, even while a
/// cancellation is ready too: freshness of data comes before promptness of
/// cancellation.
pub proof fn lemma_ready_results_come_first(
    cancel_seen: bool,
    turns: Seq<(ArrivalView, CancelPoll)>,
)
    requires
        forall|k: int| 0 <= k < turns.len() ==> (#[trigger] turns[k]).0 is Item,
    ensures
        running(phase_after(Phase::Running { cancel_seen }, turns)),
        answers(Phase::Running { cancel_seen }, turns).len() == turns.len(),
        forall|k: int|
            0 <= k < turns.len() ==> #[trigger] answers(Phase::Running { cancel_seen }, turns)[k]
                == ActionView::Deliver(turns[k].0->Item_0.delivery()),
    decreases turns.len(),
{
    if turns.len() > 0 {
        let rest = turns.drop_first();
        let start = Phase::Running { cancel_seen };
        let seen = cancel_seen || turns[0].1.ready();
        assert forall|k: int| 0 <= k < rest.len() implies (#[trigger] rest[k]).0 is Item by {
            assert(rest[k] == turns[k + 1]);
        }
        lemma_ready_results_come_first(seen, rest);
        assert forall|k: int| 0 <= k < turns.len() implies #[trigger] answers(start, turns)[k]
            == ActionView::Deliver(turns[k].0->Item_0.delivery()) by {
            if k > 0 {
                assert(rest[k - 1] == turns[k]);
                assert(answers(start, turns)[k] == answers(Phase::Running { cancel_seen: seen }, rest)[k
                    - 1]);
            }
        }
    }
}

} // verus!
