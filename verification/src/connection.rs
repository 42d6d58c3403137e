//! The one shared connection of a client, built lazily and at most once at a
//! time.
//!
//! The connection is a state machine under the caller's exclusive access.
//! Whoever wants the connection asks; the first to ask is told to build it,
//! those who ask while it is being built are told to join that build, and
//! once it stands everybody is told to use it. A build that fails leaves the
//! machine ready for a fresh attempt.

use crate::error::ClientError;
use vstd::prelude::*;

verus! {

/// The life of a connection whose handle has type `C`.
#[derive(Debug)]
pub enum Connection<C> {
    /// Nobody has asked yet.
    Uninitialized,
    /// A build is in flight.
    Building,
    /// The connection stands; this is its handle.
    Ready(C),
    /// The last build failed; the next request starts another.
    Failed,
}

/// What somebody who asks for the connection must do.
#[derive(Debug, Clone, Copy, PartialEq, Eq, Structural)]
pub enum ConnectStep {
    /// Build the connection, then report how the build ended.
    Build,
    /// Wait for the build in flight and share its outcome.
    Join,
    /// Use the handle that is there.
    Use,
}

/// What the machine made of the end of a build.
#[derive(Debug, PartialEq, Eq)]
pub enum BuildVerdict {
    /// The build in flight succeeded; the connection stands.
    Established,
    /// The build in flight failed with this error, which goes to everyone
    /// who waited for it.
    Failed(ClientError),
    /// No build was in flight; the report changed nothing.
    Ignored,
}

/// What can happen to a connection.
pub enum ConnectEvent<C> {
    /// Somebody asks for the connection.
    Request,
    /// A build ended with this handle.
    Built(C),
    /// A build ended in failure.
    BuildFailed,
}

/// What the machine answers to an event.
pub enum ConnectEffect {
    Build,
    Join,
    Use,
    Established,
    Failed,
    Ignored,
}

impl ConnectStep {
    /// This step among the machine's answers.
    pub open spec fn effect(self) -> ConnectEffect {
        match self {
            ConnectStep::Build => ConnectEffect::Build,
            ConnectStep::Join => ConnectEffect::Join,
            ConnectStep::Use => ConnectEffect::Use,
        }
    }
}

impl BuildVerdict {
    /// This verdict among the machine's answers.
    pub open spec fn effect(self) -> ConnectEffect {
        match self {
            BuildVerdict::Established => ConnectEffect::Established,
            BuildVerdict::Failed(_) => ConnectEffect::Failed,
            BuildVerdict::Ignored => ConnectEffect::Ignored,
        }
    }
}

/// The event that the end of a build amounts to.
pub open spec fn build_event<C>(outcome: Result<C, ClientError>) -> ConnectEvent<C> {
    match outcome {
        Ok(handle) => ConnectEvent::Built(handle),
        Err(_) => ConnectEvent::BuildFailed,
    }
}

/// One move of the machine.
///
/// A request starts a build when none has been started or the last one
/// failed, joins the build in flight, and uses the connection once it
/// stands. The end of a build counts only while a build is in flight: success
/// makes the connection stand with the handle built, failure leaves it
/// failed. A connection that stands never changes again.
pub open spec fn next<C>(state: Connection<C>, event: ConnectEvent<C>) -> (
    Connection<C>,
    ConnectEffect,
) {
    match event {
        ConnectEvent::Request => match state {
            Connection::Uninitialized => (Connection::Building, ConnectEffect::Build),
            Connection::Failed => (Connection::Building, ConnectEffect::Build),
            Connection::Building => (Connection::Building, ConnectEffect::Join),
            Connection::Ready(handle) => (Connection::Ready(handle), ConnectEffect::Use),
        },
        ConnectEvent::Built(handle) => match state {
            Connection::Building => (Connection::Ready(handle), ConnectEffect::Established),
            _ => (state, ConnectEffect::Ignored),
        },
        ConnectEvent::BuildFailed => match state {
            Connection::Building => (Connection::Failed, ConnectEffect::Failed),
            _ => (state, ConnectEffect::Ignored),
        },
    }
}

impl<C> Connection<C> {
    /// A connection that nobody has asked for yet.
    pub fn new() -> (connection: Connection<C>)
        ensures
            connection == Connection::<C>::Uninitialized,
    {
        Connection::Uninitialized
    }

    /// Whether the connection stands.
    pub fn is_ready(&self) -> (ready: bool)
        ensures
            ready == (*self is Ready),
    {
        match self {
            Connection::Ready(_) => true,
            _ => false,
        }
    }

    /// Whether a build is in flight.
    pub fn is_building(&self) -> (building: bool)
        ensures
            building == (*self is Building),
    {
        match self {
            Connection::Building => true,
            _ => false,
        }
    }

    /// The handle, once the connection stands.
    pub fn handle(&self) -> (handle: Option<&C>)
        ensures
            match handle {
                Some(found) => *self == Connection::Ready(*found),
                None => !(*self is Ready),
            },
    {
        match self {
            Connection::Ready(handle) => Some(handle),
            _ => None,
        }
    }

    /// Somebody asks for the connection: says what they must do, and marks a
    /// build as in flight when they are the one to build.
    pub fn request(&mut self) -> (step: ConnectStep)
        ensures
            (*final(self), step.effect()) == next(*old(self), ConnectEvent::Request),
    {
        match self {
            Connection::Ready(_) => ConnectStep::Use,
            Connection::Building => ConnectStep::Join,
            _ => {
                *self = Connection::Building;
                ConnectStep::Build
            },
        }
    }

    /// The builder reports how its build ended. While a build is in flight,
    /// success makes the connection stand and failure hands the error back
    /// for everyone who waited; at any other time the report is ignored.
    pub fn build_finished(&mut self, outcome: Result<C, ClientError>) -> (verdict: BuildVerdict)
        ensures
            (*final(self), verdict.effect()) == next(*old(self), build_event(outcome)),
            verdict matches BuildVerdict::Failed(error) ==> outcome == Err::<C, ClientError>(
                error,
            ),
    {
        if !self.is_building() {
            return BuildVerdict::Ignored;
        }
        match outcome {
            Ok(handle) => {
                *self = Connection::Ready(handle);
                BuildVerdict::Established
            },
            Err(error) => {
                *self = Connection::Failed;
                BuildVerdict::Failed(error)
            },
        }
    }
}

/// Where the machine stands after a series of events from `state`.
pub open spec fn state_after<C>(state: Connection<C>, events: Seq<ConnectEvent<C>>) -> Connection<
    C,
>
    decreases events.len(),
{
    if events.len() == 0 {
        state
    } else {
        state_after(next(state, events[0]).0, events.drop_first())
    }
}

/// How often, over a series of events from `state`, the machine answers with
/// `effect`.
pub open spec fn count<C>(
    state: Connection<C>,
    events: Seq<ConnectEvent<C>>,
    effect: ConnectEffect,
) -> nat
    decreases events.len(),
{
    if events.len() == 0 {
        0
    } else {
        let (after, answer) = next(state, events[0]);
        (if answer == effect {
            1nat
        } else {
            0nat
        }) + count(after, events.drop_first(), effect)
    }
}

/// Whether a request would start a build.
pub open spec fn idle<C>(state: Connection<C>) -> bool {
    state is Uninitialized || state is Failed
}

/// Builds are started one at a time, and a new one only after a failure:
/// over any series of events, at most one build is started per failed build,
/// plus the first one if none was in flight or done at the outset. Without a
/// failure, then, the connection is built at most once, however many ask.
pub proof fn lemma_one_build_per_failure<C>(state: Connection<C>, events: Seq<ConnectEvent<C>>)
    ensures
        count(state, events, ConnectEffect::Build) <= count(state, events, ConnectEffect::Failed)
            + (if idle(state) {
            1nat
        } else {
            0nat
        }),
    decreases events.len(),
{
    if events.len() > 0 {
        lemma_one_build_per_failure(next(state, events[0]).0, events.drop_first());
    }
}

/// A connection that stands is final: whatever happens, it stands with the
/// same handle, every request is answered with `Use`, and nothing is built.
pub proof fn lemma_ready_is_final<C>(handle: C, events: Seq<ConnectEvent<C>>)
    ensures
        state_after(Connection::Ready(handle), events) == Connection::Ready(handle),
        count(Connection::Ready(handle), events, ConnectEffect::Build) == 0,
        count(Connection::Ready(handle), events, ConnectEffect::Join) == 0,
    decreases events.len(),
{
    if events.len() > 0 {
        lemma_ready_is_final(handle, events.drop_first());
    }
}

/// However many ask before the first build has ended, one of them builds:
/// the first is told to build and all the others to join.
pub proof fn lemma_first_callers_share_one_build<C>(callers: nat)
    ensures
        count(
            Connection::<C>::Uninitialized,
            Seq::new(callers, |i: int| ConnectEvent::<C>::Request),
            ConnectEffect::Build,
        ) == (if callers > 0 {
            1nat
        } else {
            0nat
        }),
        count(
            Connection::<C>::Uninitialized,
            Seq::new(callers, |i: int| ConnectEvent::<C>::Request),
            ConnectEffect::Join,
        ) == (if callers > 0 {
            callers - 1
        } else {
            0
        }),
        callers > 0 ==> state_after(
            Connection::<C>::Uninitialized,
            Seq::new(callers, |i: int| ConnectEvent::<C>::Request),
        ) == Connection::<C>::Building,
{
    if callers > 0 {
        let requests = Seq::new(callers, |i: int| ConnectEvent::<C>::Request);
        let others = Seq::new((callers - 1) as nat, |i: int| ConnectEvent::<C>::Request);
        assert(requests.drop_first() == others);
        lemma_joiners_do_not_build::<C>((callers - 1) as nat);
    }
}

/// While a build is in flight, everyone who asks is told to join it.
pub proof fn lemma_joiners_do_not_build<C>(callers: nat)
    ensures
        count(
            Connection::<C>::Building,
            Seq::new(callers, |i: int| ConnectEvent::<C>::Request),
            ConnectEffect::Build,
        ) == 0,
        count(
            Connection::<C>::Building,
            Seq::new(callers, |i: int| ConnectEvent::<C>::Request),
            ConnectEffect::Join,
        ) == callers,
        state_after(
            Connection::<C>::Building,
            Seq::new(callers, |i: int| ConnectEvent::<C>::Request),
        ) == Connection::<C>::Building,
    decreases callers,
{
    if callers > 0 {
        let requests = Seq::new(callers, |i: int| ConnectEvent::<C>::Request);
        let others = Seq::new((callers - 1) as nat, |i: int| ConnectEvent::<C>::Request);
        assert(requests.drop_first() == others);
        lemma_joiners_do_not_build::<C>((callers - 1) as nat);
    }
}

/// A failed build does not poison the connection: the request that follows
/// the failure is told to build afresh.
pub proof fn lemma_failed_build_is_retried<C>()
    ensures
        next(Connection::<C>::Building, ConnectEvent::BuildFailed) == (
            Connection::<C>::Failed,
            ConnectEffect::Failed,
        ),
        next(Connection::<C>::Failed, ConnectEvent::Request) == (
            Connection::<C>::Building,
            ConnectEffect::Build,
        ),
{
}

} // verus!
