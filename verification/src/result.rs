//! What a backend function hands back, and what the caller or a subscriber
//! gets to see of it.

use crate::codec::{encode_value, encoded, internal};
use crate::error::{anyhow_text, ClientError, ClientErrorView};
use vstd::prelude::*;

verus! {

/// The outcome of one run of a backend function.
#[derive(Debug)]
pub enum FunctionResult {
    /// The value the function returned.
    Value(convex::Value),
    /// The message of an unexpected failure on the server.
    ErrorMessage(String),
    /// An error the function raised on purpose, with its structured payload.
    ConvexError { message: String, data: convex::Value },
}

/// A [`FunctionResult`] whose payloads have been written out as JSON text.
#[derive(Debug, PartialEq, Eq)]
pub enum EncodedResult {
    Value(String),
    ErrorMessage(String),
    ConvexError { message: String, data: String },
}

/// [`EncodedResult`] with its texts as character sequences.
pub enum EncodedView {
    Value(Seq<char>),
    ErrorMessage(Seq<char>),
    ConvexError { message: Seq<char>, data: Seq<char> },
}

impl View for EncodedResult {
    type V = EncodedView;

    open spec fn view(&self) -> EncodedView {
        match *self {
            EncodedResult::Value(text) => EncodedView::Value(text@),
            EncodedResult::ErrorMessage(message) => EncodedView::ErrorMessage(message@),
            EncodedResult::ConvexError { message, data } => EncodedView::ConvexError {
                message: message@,
                data: data@,
            },
        }
    }
}

/// One call of a subscriber: an update, or an error with its optional payload.
#[derive(Debug, PartialEq, Eq)]
pub enum Delivery {
    Update { value: String },
    Error { message: String, payload: Option<String> },
}

/// [`Delivery`] with its texts as character sequences.
pub enum DeliveryView {
    Update { value: Seq<char> },
    Error { message: Seq<char>, payload: Option<Seq<char>> },
}

impl View for Delivery {
    type V = DeliveryView;

    open spec fn view(&self) -> DeliveryView {
        match *self {
            Delivery::Update { value } => DeliveryView::Update { value: value@ },
            Delivery::Error { message, payload } => DeliveryView::Error {
                message: message@,
                payload: match payload {
                    Some(text) => Some(text@),
                    None => None,
                },
            },
        }
    }
}

impl FunctionResult {
    /// The result with its payloads encoded, or the text of the encoder's
    /// failure. A bare server message has nothing to encode.
    pub open spec fn encoding(self) -> Result<EncodedView, Seq<char>> {
        match self {
            FunctionResult::Value(value) => match encoded(value) {
                Ok(text) => Ok(EncodedView::Value(text)),
                Err(failure) => Err(failure),
            },
            FunctionResult::ErrorMessage(message) => Ok(EncodedView::ErrorMessage(message@)),
            FunctionResult::ConvexError { message, data } => match encoded(data) {
                Ok(text) => Ok(EncodedView::ConvexError { message: message@, data: text }),
                Err(failure) => Err(failure),
            },
        }
    }

    /// What the caller of a one-shot command sees of this result.
    pub open spec fn direct_outcome(self) -> Result<Seq<char>, ClientErrorView> {
        match self.encoding() {
            Ok(encoded) => encoded.direct_outcome(),
            Err(failure) => Err(internal(failure)),
        }
    }
}

impl EncodedView {
    /// What the caller of a one-shot command sees: the value's text as the
    /// success, a purposeful error with its payload alone, a server failure
    /// with its message alone.
    pub open spec fn direct_outcome(self) -> Result<Seq<char>, ClientErrorView> {
        match self {
            EncodedView::Value(text) => Ok(text),
            EncodedView::ErrorMessage(message) => Err(ClientErrorView::ServerError { msg: message }),
            EncodedView::ConvexError { message, data } => Err(
                ClientErrorView::ConvexError { data },
            ),
        }
    }

    /// What a subscriber is called with: an update for a value, an error with
    /// no payload for a server failure, an error with its payload for a
    /// purposeful one.
    pub open spec fn delivery(self) -> DeliveryView {
        match self {
            EncodedView::Value(text) => DeliveryView::Update { value: text },
            EncodedView::ErrorMessage(message) => DeliveryView::Error { message, payload: None },
            EncodedView::ConvexError { message, data } => DeliveryView::Error {
                message,
                payload: Some(data),
            },
        }
    }
}

/// A command's outcome with its texts as character sequences.
pub open spec fn outcome_view(outcome: Result<String, ClientError>) -> Result<
    Seq<char>,
    ClientErrorView,
> {
    match outcome {
        Ok(text) => Ok(text@),
        Err(error) => Err(error@),
    }
}

/// Writes the payloads of a function result out as JSON text. A payload that
/// does not encode gives an internal error with the failure's text.
pub fn encode_result(result: FunctionResult) -> (outcome: Result<EncodedResult, ClientError>)
    ensures
        match outcome {
            Ok(written) => result.encoding() == Ok::<EncodedView, Seq<char>>(written@),
            Err(error) => result.encoding() is Err && error@ == internal(
                result.encoding()->Err_0,
            ),
        },
{
    match result {
        FunctionResult::Value(value) => match encode_value(value) {
            Ok(text) => Ok(EncodedResult::Value(text)),
            Err(error) => Err(error),
        },
        FunctionResult::ErrorMessage(message) => Ok(EncodedResult::ErrorMessage(message)),
        FunctionResult::ConvexError { message, data } => match encode_value(data) {
            Ok(text) => Ok(EncodedResult::ConvexError { message, data: text }),
            Err(error) => Err(error),
        },
    }
}

/// Maps an encoded result to what the caller of a one-shot command sees.
pub fn direct_result(encoded: EncodedResult) -> (outcome: Result<String, ClientError>)
    ensures
        outcome_view(outcome) == encoded@.direct_outcome(),
{
    match encoded {
        EncodedResult::Value(text) => Ok(text),
        EncodedResult::ErrorMessage(message) => Err(ClientError::ServerError { msg: message }),
        EncodedResult::ConvexError { message, data } => Err(ClientError::ConvexError { data }),
    }
}

/// Maps an encoded result to the subscriber call that reports it.
pub fn delivery_of(encoded: EncodedResult) -> (delivery: Delivery)
    ensures
        delivery@ == encoded@.delivery(),
{
    match encoded {
        EncodedResult::Value(text) => Delivery::Update { value: text },
        EncodedResult::ErrorMessage(message) => Delivery::Error { message, payload: None },
        EncodedResult::ConvexError { message, data } => Delivery::Error {
            message,
            payload: Some(data),
        },
    }
}

/// Maps the result of a query, mutation or action to what the caller sees:
/// the value as JSON text, or an error of the kind the backend reported.
pub fn handle_direct_function_result(result: FunctionResult) -> (outcome: Result<
    String,
    ClientError,
>)
    ensures
        outcome_view(outcome) == result.direct_outcome(),
{
    match encode_result(result) {
        Ok(encoded) => direct_result(encoded),
        Err(error) => Err(error),
    }
}

/// Takes what a backend call came to. A reply that arrived is kept as it is;
/// a call that failed on the way, in the transport or in the task that made
/// it, is an internal error with the failure's text.
pub fn transported<T>(reply: Result<T, anyhow::Error>) -> (outcome: Result<T, ClientError>)
    ensures
        match reply {
            Ok(arrived) => outcome == Ok::<T, ClientError>(arrived),
            Err(failure) => outcome is Err && outcome->Err_0@ == internal(anyhow_text(failure)),
        },
{
    match reply {
        Ok(arrived) => Ok(arrived),
        Err(failure) => Err(ClientError::from(failure)),
    }
}

/// Ends a query, mutation or action: a call that failed on the way is an
/// internal error, and a result that arrived is mapped as
/// [`handle_direct_function_result`] maps it.
pub fn command_result(reply: Result<FunctionResult, anyhow::Error>) -> (outcome: Result<
    String,
    ClientError,
>)
    ensures
        outcome_view(outcome) == match reply {
            Ok(result) => result.direct_outcome(),
            Err(failure) => Err(internal(anyhow_text(failure))),
        },
{
    match transported(reply) {
        Ok(result) => handle_direct_function_result(result),
        Err(error) => Err(error),
    }
}

/// An error that a backend function raised on purpose reaches the caller
/// as an application error that carries the payload's JSON text and nothing
/// else, whatever the message was.
pub proof fn lemma_application_error_keeps_its_payload(message: String, data: convex::Value)
    requires
        encoded(data) is Ok,
    ensures
        (FunctionResult::ConvexError { message, data }).direct_outcome() == Err::<
            Seq<char>,
            ClientErrorView,
        >(ClientErrorView::ConvexError { data: encoded(data)->Ok_0 }),
{
}

/// An unexpected failure on the server reaches the caller as a server error
/// that carries the message and no payload.
pub proof fn lemma_server_error_keeps_its_message(message: String)
    ensures
        FunctionResult::ErrorMessage(message).direct_outcome() == Err::<
            Seq<char>,
            ClientErrorView,
        >(ClientErrorView::ServerError { msg: message@ }),
{
}

/// Only a value is good news: it alone is delivered as an update and ends a
/// command with success. Either kind of error is delivered as an error and
/// ends a command with an error.
pub proof fn lemma_only_a_value_is_an_update(encoded: EncodedView)
    ensures
        encoded is Value <==> encoded.delivery() is Update,
        encoded is Value <==> encoded.direct_outcome() is Ok,
{
}

} // verus!
