use std::collections::BTreeMap;

use convex::Value;
use mobile_convex::error::ClientError;
use mobile_convex::result::{
    command_result, delivery_of, direct_result, encode_result, handle_direct_function_result,
    transported, Delivery, EncodedResult, FunctionResult,
};

fn code_x() -> Value {
    let mut fields = BTreeMap::new();
    fields.insert("code".to_string(), Value::String("X".to_string()));
    Value::Object(fields)
}

#[test]
fn application_error_carries_exactly_its_payload() {
    let result = FunctionResult::ConvexError { message: "denied".to_string(), data: code_x() };
    assert_eq!(
        handle_direct_function_result(result),
        Err(ClientError::ConvexError { data: "{\"code\":\"X\"}".to_string() })
    );
}

#[test]
fn server_error_carries_only_its_message() {
    let result = FunctionResult::ErrorMessage("boom".to_string());
    assert_eq!(
        handle_direct_function_result(result),
        Err(ClientError::ServerError { msg: "boom".to_string() })
    );
}

#[test]
fn value_becomes_json_text() {
    assert_eq!(
        handle_direct_function_result(FunctionResult::Value(Value::String("hi".to_string()))),
        Ok("\"hi\"".to_string())
    );
    assert_eq!(
        handle_direct_function_result(FunctionResult::Value(Value::Int64(-1))),
        Ok("{\"$integer\":\"//////////8=\"}".to_string())
    );
}

#[test]
fn encode_result_writes_each_payload() {
    assert_eq!(
        encode_result(FunctionResult::Value(Value::Null)),
        Ok(EncodedResult::Value("null".to_string()))
    );
    assert_eq!(
        encode_result(FunctionResult::ErrorMessage("boom".to_string())),
        Ok(EncodedResult::ErrorMessage("boom".to_string()))
    );
    assert_eq!(
        encode_result(FunctionResult::ConvexError { message: "m".to_string(), data: code_x() }),
        Ok(EncodedResult::ConvexError {
            message: "m".to_string(),
            data: "{\"code\":\"X\"}".to_string()
        })
    );
}

#[test]
fn direct_result_of_each_kind() {
    assert_eq!(direct_result(EncodedResult::Value("1.0".to_string())), Ok("1.0".to_string()));
    assert_eq!(
        direct_result(EncodedResult::ErrorMessage("boom".to_string())),
        Err(ClientError::ServerError { msg: "boom".to_string() })
    );
    assert_eq!(
        direct_result(EncodedResult::ConvexError {
            message: "m".to_string(),
            data: "{}".to_string()
        }),
        Err(ClientError::ConvexError { data: "{}".to_string() })
    );
}

#[test]
fn delivery_of_each_kind() {
    assert_eq!(
        delivery_of(EncodedResult::Value("1.0".to_string())),
        Delivery::Update { value: "1.0".to_string() }
    );
    assert_eq!(
        delivery_of(EncodedResult::ErrorMessage("boom".to_string())),
        Delivery::Error { message: "boom".to_string(), payload: None }
    );
    assert_eq!(
        delivery_of(EncodedResult::ConvexError {
            message: "m".to_string(),
            data: "{}".to_string()
        }),
        Delivery::Error { message: "m".to_string(), payload: Some("{}".to_string()) }
    );
}

#[test]
fn error_lines_name_the_kind() {
    assert_eq!(
        ClientError::InternalError { msg: "no route".to_string() }.message(),
        "InternalError: no route"
    );
    assert_eq!(
        ClientError::ConvexError { data: "{\"code\":\"X\"}".to_string() }.message(),
        "ConvexError: {\"code\":\"X\"}"
    );
    assert_eq!(
        ClientError::ServerError { msg: "boom".to_string() }.message(),
        "ServerError: boom"
    );
}

#[test]
fn any_other_failure_is_internal_and_keeps_its_text() {
    let failure = anyhow::Error::msg("connection refused");
    assert_eq!(
        ClientError::from(failure),
        ClientError::InternalError { msg: "connection refused".to_string() }
    );
}

#[test]
fn a_reply_that_arrived_is_kept() {
    assert_eq!(transported(Ok(5)), Ok(5));
    assert_eq!(transported(Ok(())), Ok(()));
}

#[test]
fn a_call_that_failed_on_the_way_is_internal() {
    let reply: Result<u8, anyhow::Error> = Err(anyhow::Error::msg("socket closed"));
    assert_eq!(
        transported(reply),
        Err(ClientError::InternalError { msg: "socket closed".to_string() })
    );
}

#[test]
fn command_result_maps_replies_and_failures() {
    assert_eq!(
        command_result(Ok(FunctionResult::Value(Value::Boolean(true)))),
        Ok("true".to_string())
    );
    assert_eq!(
        command_result(Ok(FunctionResult::ErrorMessage("boom".to_string()))),
        Err(ClientError::ServerError { msg: "boom".to_string() })
    );
    assert_eq!(
        command_result(Ok(FunctionResult::ConvexError {
            message: "denied".to_string(),
            data: code_x()
        })),
        Err(ClientError::ConvexError { data: "{\"code\":\"X\"}".to_string() })
    );
    assert_eq!(
        command_result(Err(anyhow::Error::msg("timed out"))),
        Err(ClientError::InternalError { msg: "timed out".to_string() })
    );
}

#[test]
fn an_error_copies_with_its_text() {
    let error = ClientError::ConvexError { data: "{}".to_string() };
    assert_eq!(error.clone(), error);
}
