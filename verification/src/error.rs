//! The errors a caller can see.

use vstd::prelude::*;
use vstd::std_specs::convert::FromSpecImpl;
use vstd::string::StringExecFns;

verus! {

/// `anyhow::Error`, the failure that the backend library reports.
#[verifier::external_type_specification]
#[verifier::external_body]
pub struct ExAnyhowError(anyhow::Error);

/// The text that an `anyhow::Error` displays.
pub uninterp spec fn anyhow_text(error: anyhow::Error) -> Seq<char>;

/// `ToString::to_string` on an `anyhow::Error`, which writes the error's
/// `Display` form: trusted to depend on the error alone, named
/// [`anyhow_text`].
#[verifier::external_body]
pub(crate) fn anyhow_message(error: &anyhow::Error) -> (message: String)
    ensures
        message@ == anyhow_text(*error),
{
    error.to_string()
}

/// What went wrong, as the caller sees it.
#[derive(Debug, PartialEq, Eq)]
pub enum ClientError {
    /// A failure of this client itself: the connection, the transport, an
    /// argument that does not decode, a value that does not encode.
    InternalError { msg: String },
    /// Structured data that a backend function returned on purpose.
    ConvexError { data: String },
    /// An unexpected failure on the server, as a bare message.
    ServerError { msg: String },
}

/// [`ClientError`] with its texts as character sequences.
pub enum ClientErrorView {
    InternalError { msg: Seq<char> },
    ConvexError { data: Seq<char> },
    ServerError { msg: Seq<char> },
}

impl View for ClientError {
    type V = ClientErrorView;

    open spec fn view(&self) -> ClientErrorView {
        match *self {
            ClientError::InternalError { msg } => ClientErrorView::InternalError { msg: msg@ },
            ClientError::ConvexError { data } => ClientErrorView::ConvexError { data: data@ },
            ClientError::ServerError { msg } => ClientErrorView::ServerError { msg: msg@ },
        }
    }
}

impl ClientErrorView {
    /// The line shown for an error: its kind, a colon and a space, its text.
    pub open spec fn rendered(self) -> Seq<char> {
        match self {
            ClientErrorView::InternalError { msg } => "InternalError: "@ + msg,
            ClientErrorView::ConvexError { data } => "ConvexError: "@ + data,
            ClientErrorView::ServerError { msg } => "ServerError: "@ + msg,
        }
    }
}

impl ClientError {
    /// The line shown for this error.
    pub fn message(&self) -> (line: String)
        ensures
            line@ == self@.rendered(),
    {
        match self {
            ClientError::InternalError { msg } => String::from_str("InternalError: ").concat(
                msg.as_str(),
            ),
            ClientError::ConvexError { data } => String::from_str("ConvexError: ").concat(
                data.as_str(),
            ),
            ClientError::ServerError { msg } => String::from_str("ServerError: ").concat(
                msg.as_str(),
            ),
        }
    }
}

impl Clone for ClientError {
    fn clone(&self) -> (copy: ClientError)
        ensures
            copy == *self,
    {
        match self {
            ClientError::InternalError { msg } => ClientError::InternalError { msg: msg.clone() },
            ClientError::ConvexError { data } => ClientError::ConvexError { data: data.clone() },
            ClientError::ServerError { msg } => ClientError::ServerError { msg: msg.clone() },
        }
    }
}

/// The conversion from `anyhow::Error` is stated on `from` itself, over the
/// error's text, and not as a value of this type.
impl FromSpecImpl<anyhow::Error> for ClientError {
    open spec fn obeys_from_spec() -> bool {
        false
    }

    open spec fn from_spec(value: anyhow::Error) -> ClientError {
        arbitrary()
    }
}

impl From<anyhow::Error> for ClientError {
    /// Any failure that did not come from application logic is internal, and
    /// keeps its text.
    fn from(value: anyhow::Error) -> (error: ClientError)
        ensures
            error@ == (ClientErrorView::InternalError { msg: anyhow_text(value) }),
    {
        ClientError::InternalError { msg: anyhow_message(&value) }
    }
}

} // verus!
