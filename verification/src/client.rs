//! The client as its callers see it: what each operation must do next.
//!
//! The client makes no call itself. For every operation it says whether the
//! connection must be obtained first, which backend call is to be made with
//! which decoded arguments, or with which error the operation ends before
//! any call is made.

use crate::codec::{decoded, decodes_to, parse_json_args, parses_to};
use crate::connection::{
    build_event, next, BuildVerdict, ConnectEvent, ConnectStep, Connection,
};
use crate::error::ClientError;
use vstd::prelude::*;

verus! {

/// The backend verbs that run a named function on arguments.
#[derive(Debug, Clone, Copy, PartialEq, Eq, Structural)]
pub enum Verb {
    /// A one-shot read.
    Query,
    /// A one-shot write.
    Mutation,
    /// A one-shot call with effects of its own.
    Action,
    /// A long-lived reactive read.
    Subscribe,
}

/// One function call to make against the backend.
#[derive(Debug)]
pub struct FunctionCall {
    /// The way to run the function.
    pub verb: Verb,
    /// The function's name.
    pub name: String,
    /// The decoded arguments, under the caller's keys.
    pub args: Vec<(String, convex::Value)>,
}

/// What an operation must do next, where `T` describes its backend call.
#[derive(Debug)]
pub enum Plan<T> {
    /// Obtain the connection, then ask again.
    Connect,
    /// Make this call on the connection.
    Call(T),
    /// End with this error; no call is made.
    Fail(ClientError),
}

/// What somebody who needs the connection must do.
#[derive(Debug)]
pub enum Connect<'a, C> {
    /// Build a connection to this deployment under this client identifier,
    /// then report how the build ended.
    Build { deployment_url: String, client_id: String },
    /// Wait for the build in flight and share its outcome.
    Join,
    /// Use this handle.
    Use(&'a C),
}

impl<'a, C> Connect<'a, C> {
    /// This answer as a step of the connection's machine.
    pub open spec fn step(self) -> ConnectStep {
        match self {
            Connect::Build { .. } => ConnectStep::Build,
            Connect::Join => ConnectStep::Join,
            Connect::Use(_) => ConnectStep::Use,
        }
    }
}

/// A client of one deployment, with its lazily built connection of handle
/// type `C`.
#[derive(Debug)]
pub struct MobileConvexClient<C> {
    deployment_url: String,
    client_id: String,
    connection: Connection<C>,
}

/// Whether `plan` is the right next step of a function call: to connect
/// while the connection does not stand; else the call itself, with the name
/// unchanged and every argument decoded; or, if an argument does not decode,
/// the internal error of the first such argument.
pub open spec fn plans_call(
    connected: bool,
    verb: Verb,
    name: Seq<char>,
    raw_args: Seq<(String, String)>,
    plan: Plan<FunctionCall>,
) -> bool {
    match plan {
        Plan::Connect => !connected,
        Plan::Call(call) => {
            &&& connected
            &&& call.verb == verb
            &&& call.name@ == name
            &&& decodes_to(raw_args, call.args@)
        },
        Plan::Fail(error) => {
            &&& connected
            &&& parses_to(raw_args, Err(error))
        },
    }
}

/// An argument that does not decode keeps the call from being made: the
/// operation asks for the connection or fails, and never names a call.
pub proof fn lemma_undecodable_argument_prevents_the_call(
    connected: bool,
    verb: Verb,
    name: Seq<char>,
    raw_args: Seq<(String, String)>,
    plan: Plan<FunctionCall>,
    at: int,
)
    requires
        plans_call(connected, verb, name, raw_args, plan),
        0 <= at < raw_args.len(),
        decoded(raw_args[at].1@) is Err,
    ensures
        !(plan is Call),
{
    if let Plan::Call(call) = plan {
        let entry = call.args@[at];
        assert(decoded(raw_args[at].1@) == Ok::<convex::Value, Seq<char>>(entry.1));
    }
}

impl<C> MobileConvexClient<C> {
    /// The address of the deployment this client talks to.
    pub closed spec fn deployment_url(&self) -> Seq<char> {
        self.deployment_url@
    }

    /// The identifier this client presents.
    pub closed spec fn client_id(&self) -> Seq<char> {
        self.client_id@
    }

    /// The state of the client's connection.
    pub closed spec fn connection(&self) -> Connection<C> {
        self.connection
    }

    /// A client for the deployment at `deployment_url`. Nothing is connected
    /// yet: the connection is built when first needed.
    pub fn new(deployment_url: String, client_id: String) -> (client: MobileConvexClient<C>)
        ensures
            client.deployment_url() == deployment_url@,
            client.client_id() == client_id@,
            client.connection() == Connection::<C>::Uninitialized,
    {
        MobileConvexClient { deployment_url, client_id, connection: Connection::new() }
    }

    /// Whether the connection stands.
    pub fn is_connected(&self) -> (connected: bool)
        ensures
            connected == (self.connection() is Ready),
    {
        self.connection.is_ready()
    }

    /// Somebody needs the connection. The first to ask, and the first to ask
    /// after a failed build, is told to build it for this client's
    /// deployment and identifier; those who ask meanwhile are told to join;
    /// once it stands everyone gets the same handle.
    pub fn connected_client(&mut self) -> (answer: Connect<'_, C>)
        ensures
            (final(self).connection(), answer.step().effect()) == next(
                old(self).connection(),
                ConnectEvent::Request,
            ),
            final(self).deployment_url() == old(self).deployment_url(),
            final(self).client_id() == old(self).client_id(),
            match answer {
                Connect::Build { deployment_url, client_id } => deployment_url@ == old(
                    self,
                ).deployment_url() && client_id@ == old(self).client_id(),
                Connect::Join => true,
                Connect::Use(handle) => old(self).connection() == Connection::Ready(*handle),
            },
    {
        match self.connection.request() {
            ConnectStep::Build => Connect::Build {
                deployment_url: self.deployment_url.clone(),
                client_id: self.client_id.clone(),
            },
            ConnectStep::Join => Connect::Join,
            ConnectStep::Use => Connect::Use(self.connection.handle().unwrap()),
        }
    }

    /// The builder reports how its build ended; see
    /// [`Connection::build_finished`].
    pub fn build_finished(&mut self, outcome: Result<C, ClientError>) -> (verdict: BuildVerdict)
        ensures
            (final(self).connection(), verdict.effect()) == next(
                old(self).connection(),
                build_event(outcome),
            ),
            verdict matches BuildVerdict::Failed(error) ==> outcome == Err::<C, ClientError>(
                error,
            ),
            final(self).deployment_url() == old(self).deployment_url(),
            final(self).client_id() == old(self).client_id(),
    {
        self.connection.build_finished(outcome)
    }

    /// The next step of a call of `verb`: the routine that all four verbs
    /// share.
    fn plan_call(&self, verb: Verb, name: &str, args: &Vec<(String, String)>) -> (plan: Plan<FunctionCall>)
        ensures
            plans_call(self.connection() is Ready, verb, name@, args@, plan),
    {
        if !self.connection.is_ready() {
            return Plan::Connect;
        }
        match parse_json_args(args) {
            Ok(decoded_args) => Plan::Call(
                FunctionCall { verb, name: name.to_owned(), args: decoded_args },
            ),
            Err(error) => Plan::Fail(error),
        }
    }

    /// The next step of a one-shot read of the function `name`.
    pub fn query(&self, name: &str, args: &Vec<(String, String)>) -> (plan: Plan<FunctionCall>)
        ensures
            plans_call(self.connection() is Ready, Verb::Query, name@, args@, plan),
    {
        self.plan_call(Verb::Query, name, args)
    }

    /// The next step of opening a reactive subscription to the function
    /// `name`.
    pub fn subscribe(&self, name: &str, args: &Vec<(String, String)>) -> (plan: Plan<FunctionCall>)
        ensures
            plans_call(self.connection() is Ready, Verb::Subscribe, name@, args@, plan),
    {
        self.plan_call(Verb::Subscribe, name, args)
    }

    /// The next step of a one-shot write through the function `name`.
    pub fn mutation(&self, name: &str, args: &Vec<(String, String)>) -> (plan: Plan<FunctionCall>)
        ensures
            plans_call(self.connection() is Ready, Verb::Mutation, name@, args@, plan),
    {
        self.plan_call(Verb::Mutation, name, args)
    }

    /// The next step of a one-shot run of the action `name`.
    pub fn action(&self, name: &str, args: &Vec<(String, String)>) -> (plan: Plan<FunctionCall>)
        ensures
            plans_call(self.connection() is Ready, Verb::Action, name@, args@, plan),
    {
        self.plan_call(Verb::Action, name, args)
    }

    /// The next step of setting or clearing the authentication: to connect
    /// while the connection does not stand, else to forward the token as it
    /// is, where no token clears the authentication. What was set before
    /// plays no part.
    pub fn set_auth(&self, token: Option<String>) -> (plan: Plan<Option<String>>)
        ensures
            plan == (if self.connection() is Ready {
                Plan::Call(token)
            } else {
                Plan::<Option<String>>::Connect
            }),
    {
        if !self.connection.is_ready() {
            return Plan::Connect;
        }
        Plan::Call(token)
    }
}

} // verus!
