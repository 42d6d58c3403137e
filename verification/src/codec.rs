//! Backend values and their JSON text.
//!
//! A backend value is never inspected here. It is carried through and handed
//! to the backend library's own JSON mapping and to the JSON codec, whose
//! results are named so that contracts can speak of them.

use crate::error::{anyhow_message, anyhow_text, ClientError, ClientErrorView};
use vstd::prelude::*;

verus! {

/// `convex::Value`, a backend value: carried through unopened.
#[verifier::external_type_specification]
#[verifier::external_body]
pub struct ExBackendValue(convex::Value);

/// `serde_json::Value`, a JSON document: carried through unopened.
#[verifier::external_type_specification]
#[verifier::external_body]
pub struct ExJsonValue(serde_json::Value);

/// `serde_json::Error`, a failure of the JSON reader or writer.
#[verifier::external_type_specification]
#[verifier::external_body]
pub struct ExJsonError(serde_json::Error);

/// The JSON document that `serde_json::from_str` reads from a text, or the
/// error it reports.
pub uninterp spec fn parsed_json(text: Seq<char>) -> Result<serde_json::Value, serde_json::Error>;

/// The backend value that `convex::Value::try_from` makes of a JSON
/// document, or the error it reports.
pub uninterp spec fn value_of_json(json: serde_json::Value) -> Result<convex::Value, anyhow::Error>;

/// The JSON document that the backend library's `From<convex::Value>` makes
/// of a backend value.
pub uninterp spec fn json_of_value(value: convex::Value) -> serde_json::Value;

/// The text that `serde_json::to_string` writes for a JSON document, or the
/// error it reports.
pub uninterp spec fn json_text(json: serde_json::Value) -> Result<Seq<char>, serde_json::Error>;

/// The text that a `serde_json::Error` displays.
pub uninterp spec fn json_error_text(error: serde_json::Error) -> Seq<char>;

/// `serde_json::from_str` at `serde_json::Value`: trusted to be a function of
/// the text alone, named [`parsed_json`].
#[verifier::external_body]
fn json_from_str(text: &str) -> (parsed: Result<serde_json::Value, serde_json::Error>)
    ensures
        parsed == parsed_json(text@),
{
    serde_json::from_str::<serde_json::Value>(text)
}

/// `convex::Value::try_from(serde_json::Value)`: trusted to be a function of
/// the document alone, named [`value_of_json`].
#[verifier::external_body]
fn value_from_json(json: serde_json::Value) -> (value: Result<convex::Value, anyhow::Error>)
    ensures
        value == value_of_json(json),
{
    convex::Value::try_from(json)
}

/// `serde_json::Value::from(convex::Value)`, the backend library's mapping
/// of its values to JSON: trusted to be a function of the value alone, named
/// [`json_of_value`].
#[verifier::external_body]
fn json_from_value(value: convex::Value) -> (json: serde_json::Value)
    ensures
        json == json_of_value(value),
{
    serde_json::Value::from(value)
}

/// `serde_json::to_string` on a `serde_json::Value`: trusted to be a function
/// of the document alone, named [`json_text`].
#[verifier::external_body]
fn json_to_string(json: &serde_json::Value) -> (text: Result<String, serde_json::Error>)
    ensures
        match text {
            Ok(written) => json_text(*json) == Ok::<Seq<char>, serde_json::Error>(written@),
            Err(error) => json_text(*json) == Err::<Seq<char>, serde_json::Error>(error),
        },
{
    serde_json::to_string(json)
}

/// `ToString::to_string` on a `serde_json::Error`, which writes the error's
/// `Display` form: trusted to depend on the error alone, named
/// [`json_error_text`].
#[verifier::external_body]
fn json_error_message(error: &serde_json::Error) -> (message: String)
    ensures
        message@ == json_error_text(*error),
{
    error.to_string()
}

/// What a JSON text decodes to: the backend value, or the text of the first
/// failure, be it of the JSON reader or of the mapping to a backend value.
pub open spec fn decoded(text: Seq<char>) -> Result<convex::Value, Seq<char>> {
    match parsed_json(text) {
        Err(error) => Err(json_error_text(error)),
        Ok(json) => match value_of_json(json) {
            Err(error) => Err(anyhow_text(error)),
            Ok(value) => Ok(value),
        },
    }
}

/// What a backend value encodes to: its JSON text, or the text of the
/// writer's failure.
pub open spec fn encoded(value: convex::Value) -> Result<Seq<char>, Seq<char>> {
    match json_text(json_of_value(value)) {
        Err(error) => Err(json_error_text(error)),
        Ok(text) => Ok(text),
    }
}

/// The internal error with the given text.
pub open spec fn internal(msg: Seq<char>) -> ClientErrorView {
    ClientErrorView::InternalError { msg }
}

/// Decodes one JSON text into a backend value. A text that is no JSON, or no
/// backend value, gives an internal error with the failure's text.
pub fn decode_value(text: &str) -> (outcome: Result<convex::Value, ClientError>)
    ensures
        match outcome {
            Ok(value) => decoded(text@) == Ok::<convex::Value, Seq<char>>(value),
            Err(error) => decoded(text@) is Err && error@ == internal(decoded(text@)->Err_0),
        },
{
    match json_from_str(text) {
        Err(error) => Err(ClientError::InternalError { msg: json_error_message(&error) }),
        Ok(json) => match value_from_json(json) {
            Err(error) => Err(ClientError::InternalError { msg: anyhow_message(&error) }),
            Ok(value) => Ok(value),
        },
    }
}

/// Encodes one backend value as JSON text. A failure of the writer gives an
/// internal error with the failure's text.
pub fn encode_value(value: convex::Value) -> (outcome: Result<String, ClientError>)
    ensures
        match outcome {
            Ok(text) => encoded(value) == Ok::<Seq<char>, Seq<char>>(text@),
            Err(error) => encoded(value) is Err && error@ == internal(encoded(value)->Err_0),
        },
{
    let json = json_from_value(value);
    match json_to_string(&json) {
        Err(error) => Err(ClientError::InternalError { msg: json_error_message(&error) }),
        Ok(text) => Ok(text),
    }
}

/// Whether every one of the first `count` argument texts decodes.
pub open spec fn decodable_up_to(raw_args: Seq<(String, String)>, count: int) -> bool {
    forall|i: int| 0 <= i < count ==> (#[trigger] decoded(raw_args[i].1@)) is Ok
}

/// Whether `args` is `raw_args` decoded entry by entry: the same keys in the
/// same places, each with the value its text decodes to.
pub open spec fn decodes_to(
    raw_args: Seq<(String, String)>,
    args: Seq<(String, convex::Value)>,
) -> bool {
    &&& args.len() == raw_args.len()
    &&& forall|i: int|
        0 <= i < raw_args.len() ==> {
            &&& (#[trigger] args[i]).0@ == raw_args[i].0@
            &&& decoded(raw_args[i].1@) == Ok::<convex::Value, Seq<char>>(args[i].1)
        }
}

/// Whether entry `at` is the first of `raw_args` whose text does not decode.
pub open spec fn first_undecodable(raw_args: Seq<(String, String)>, at: int) -> bool {
    &&& 0 <= at < raw_args.len()
    &&& decodable_up_to(raw_args, at)
    &&& decoded(raw_args[at].1@) is Err
}

/// Whether `outcome` is what decoding `raw_args` must give: all of them
/// decoded, or the internal error of the first that does not decode.
pub open spec fn parses_to(
    raw_args: Seq<(String, String)>,
    outcome: Result<Vec<(String, convex::Value)>, ClientError>,
) -> bool {
    match outcome {
        Ok(args) => decodes_to(raw_args, args@),
        Err(error) => exists|at: int|
            first_undecodable(raw_args, at) && error@ == internal(
                decoded(#[trigger] raw_args[at].1@)->Err_0,
            ),
    }
}

/// Takes one argument as it came out of decoding: a value joins the list
/// under its key, a failure is handed on and leaves the list as it was.
pub fn push_decoded(
    args: &mut Vec<(String, convex::Value)>,
    key: String,
    value: Result<convex::Value, ClientError>,
) -> (added: Result<(), ClientError>)
    ensures
        match value {
            Ok(decoded) => added is Ok && final(args)@ == old(args)@.push((key, decoded)),
            Err(error) => added == Err::<(), ClientError>(error) && final(args)@ == old(args)@,
        },
{
    match value {
        Ok(decoded) => {
            args.push((key, decoded));
            Ok(())
        },
        Err(error) => Err(error),
    }
}

/// Decodes an argument list, each value of which is a JSON text, into
/// backend values under the same keys. The list fails closed: if any text
/// does not decode, nothing is returned but the internal error of the first
/// such entry.
pub fn parse_json_args(raw_args: &Vec<(String, String)>) -> (outcome: Result<
    Vec<(String, convex::Value)>,
    ClientError,
>)
    ensures
        parses_to(raw_args@, outcome),
{
    let mut args: Vec<(String, convex::Value)> = Vec::new();
    let mut i: usize = 0;
    while i < raw_args.len()
        invariant
            i <= raw_args.len(),
            decodes_to(raw_args@.take(i as int), args@),
        decreases raw_args.len() - i,
    {
        let key = raw_args[i].0.clone();
        let value = decode_value(raw_args[i].1.as_str());
        match push_decoded(&mut args, key, value) {
            Err(error) => {
                assert(first_undecodable(raw_args@, i as int)) by {
                    assert forall|j: int| 0 <= j < i implies (#[trigger] decoded(
                        raw_args@[j].1@,
                    )) is Ok by {
                        let entry = args@[j];
                        assert(raw_args@.take(i as int)[j] == raw_args@[j]);
                        assert(decoded(raw_args@[j].1@) == Ok::<convex::Value, Seq<char>>(
                            entry.1,
                        ));
                    }
                }
                return Err(error);
            },
            Ok(()) => {},
        }
        i += 1;
    }
    assert(raw_args@.take(i as int) == raw_args@);
    Ok(args)
}

/// An argument list decodes if and only if every one of its texts does: a
/// single text that does not decode leaves nothing of the list.
pub proof fn lemma_arguments_fail_closed(
    raw_args: Seq<(String, String)>,
    outcome: Result<Vec<(String, convex::Value)>, ClientError>,
)
    requires
        parses_to(raw_args, outcome),
    ensures
        outcome is Ok <==> decodable_up_to(raw_args, raw_args.len() as int),
{
    match outcome {
        Ok(args) => {
            assert forall|i: int| 0 <= i < raw_args.len() implies (#[trigger] decoded(
                raw_args[i].1@,
            )) is Ok by {
                let entry = args@[i];
                assert(decoded(raw_args[i].1@) == Ok::<convex::Value, Seq<char>>(entry.1));
            }
        },
        Err(error) => {
            let at = choose|at: int|
                first_undecodable(raw_args, at) && error@ == internal(
                    decoded(#[trigger] raw_args[at].1@)->Err_0,
                );
            assert(decoded(raw_args[at].1@) is Err);
        },
    }
}

/// Decoding keeps the keys: if no key occurs twice among the raw arguments,
/// none occurs twice among the decoded ones.
pub proof fn lemma_decoding_keeps_keys_distinct(
    raw_args: Seq<(String, String)>,
    args: Seq<(String, convex::Value)>,
)
    requires
        decodes_to(raw_args, args),
        forall|i: int, j: int|
            0 <= i < j < raw_args.len() ==> (#[trigger] raw_args[i]).0@ != (
            #[trigger] raw_args[j]).0@,
    ensures
        forall|i: int, j: int|
            0 <= i < j < args.len() ==> (#[trigger] args[i]).0@ != (#[trigger] args[j]).0@,
{
}

} // verus!
