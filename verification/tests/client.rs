use convex::Value;
use mobile_convex::client::{Connect, MobileConvexClient, Plan, Verb};
use mobile_convex::connection::{BuildVerdict, ConnectStep, Connection};
use mobile_convex::error::ClientError;

fn pairs(entries: &[(&str, &str)]) -> Vec<(String, String)> {
    entries.iter().map(|(k, v)| (k.to_string(), v.to_string())).collect()
}

fn client() -> MobileConvexClient<u32> {
    MobileConvexClient::new("https://example.convex.cloud".to_string(), "mobile-1".to_string())
}

fn connected() -> MobileConvexClient<u32> {
    let mut client = client();
    assert!(matches!(client.connected_client(), Connect::Build { .. }));
    assert_eq!(client.build_finished(Ok(7)), BuildVerdict::Established);
    client
}

fn failure(text: &str) -> ClientError {
    ClientError::InternalError { msg: text.to_string() }
}

#[test]
fn first_caller_builds_and_the_others_join() {
    let mut connection: Connection<u32> = Connection::new();
    assert_eq!(connection.request(), ConnectStep::Build);
    for _ in 0..5 {
        assert_eq!(connection.request(), ConnectStep::Join);
    }
    assert!(connection.is_building());
    assert_eq!(connection.build_finished(Ok(42)), BuildVerdict::Established);
    for _ in 0..5 {
        assert_eq!(connection.request(), ConnectStep::Use);
        assert_eq!(connection.handle(), Some(&42));
    }
}

#[test]
fn a_failed_build_reaches_the_waiters_and_is_retried() {
    let mut connection: Connection<u32> = Connection::new();
    assert_eq!(connection.request(), ConnectStep::Build);
    assert_eq!(connection.request(), ConnectStep::Join);
    assert_eq!(
        connection.build_finished(Err(failure("no route"))),
        BuildVerdict::Failed(failure("no route"))
    );
    assert!(!connection.is_ready());
    assert_eq!(connection.handle(), None);
    assert_eq!(connection.request(), ConnectStep::Build);
    assert_eq!(connection.request(), ConnectStep::Join);
    assert_eq!(connection.build_finished(Ok(1)), BuildVerdict::Established);
    assert_eq!(connection.request(), ConnectStep::Use);
    assert_eq!(connection.handle(), Some(&1));
}

#[test]
fn a_report_without_a_build_in_flight_is_ignored() {
    let mut connection: Connection<u32> = Connection::new();
    assert_eq!(connection.build_finished(Ok(1)), BuildVerdict::Ignored);
    assert!(!connection.is_ready());
    assert_eq!(connection.request(), ConnectStep::Build);
    assert_eq!(connection.build_finished(Ok(2)), BuildVerdict::Established);
    assert_eq!(connection.build_finished(Ok(3)), BuildVerdict::Ignored);
    assert_eq!(connection.build_finished(Err(failure("late"))), BuildVerdict::Ignored);
    assert_eq!(connection.handle(), Some(&2));
}

#[test]
fn the_client_builds_for_its_own_deployment() {
    let mut client = client();
    assert!(!client.is_connected());
    match client.connected_client() {
        Connect::Build { deployment_url, client_id } => {
            assert_eq!(deployment_url, "https://example.convex.cloud");
            assert_eq!(client_id, "mobile-1");
        },
        other => panic!("unexpected {:?}", other),
    }
    assert!(matches!(client.connected_client(), Connect::Join));
    assert_eq!(client.build_finished(Ok(7)), BuildVerdict::Established);
    assert!(client.is_connected());
    assert!(matches!(client.connected_client(), Connect::Use(&7)));
    assert!(matches!(client.connected_client(), Connect::Use(&7)));
}

#[test]
fn the_client_retries_after_a_failed_build() {
    let mut client = client();
    assert!(matches!(client.connected_client(), Connect::Build { .. }));
    assert_eq!(
        client.build_finished(Err(failure("refused"))),
        BuildVerdict::Failed(failure("refused"))
    );
    assert!(!client.is_connected());
    assert!(matches!(client.connected_client(), Connect::Build { .. }));
}

#[test]
fn operations_ask_for_the_connection_first() {
    let client = client();
    let args = pairs(&[("a", "{")]);
    assert!(matches!(client.query("messages:list", &args), Plan::Connect));
    assert!(matches!(client.mutation("messages:send", &args), Plan::Connect));
    assert!(matches!(client.action("gif:send", &args), Plan::Connect));
    assert!(matches!(client.subscribe("messages:list", &args), Plan::Connect));
    assert!(matches!(client.set_auth(None), Plan::Connect));
}

#[test]
fn query_plans_the_call_with_decoded_arguments() {
    let client = connected();
    match client.query("messages:list", &pairs(&[("a", "1"), ("b", "\"x\"")])) {
        Plan::Call(call) => {
            assert_eq!(call.verb, Verb::Query);
            assert_eq!(call.name, "messages:list");
            assert_eq!(
                call.args,
                vec![
                    ("a".to_string(), Value::Float64(1.0)),
                    ("b".to_string(), Value::String("x".to_string())),
                ]
            );
        },
        other => panic!("unexpected {:?}", other),
    }
}

#[test]
fn each_verb_plans_its_own_call() {
    let client = connected();
    let args = pairs(&[("n", "2")]);
    for (plan, expected) in [
        (client.query("f", &args), Verb::Query),
        (client.mutation("f", &args), Verb::Mutation),
        (client.action("f", &args), Verb::Action),
        (client.subscribe("f", &args), Verb::Subscribe),
    ] {
        match plan {
            Plan::Call(call) => {
                assert_eq!(call.verb, expected);
                assert_eq!(call.name, "f");
                assert_eq!(call.args, vec![("n".to_string(), Value::Float64(2.0))]);
            },
            other => panic!("unexpected {:?}", other),
        }
    }
}

#[test]
fn invalid_json_fails_before_any_call() {
    let client = connected();
    let args = pairs(&[("a", "{")]);
    let expected = "EOF while parsing an object at line 1 column 1";
    for plan in [
        client.query("f", &args),
        client.mutation("f", &args),
        client.action("f", &args),
        client.subscribe("f", &args),
    ] {
        match plan {
            Plan::Fail(error) => assert_eq!(error, failure(expected)),
            other => panic!("unexpected {:?}", other),
        }
    }
}

#[test]
fn set_auth_clears_and_sets_independently() {
    let client = connected();
    match client.set_auth(None) {
        Plan::Call(token) => assert_eq!(token, None),
        other => panic!("unexpected {:?}", other),
    }
    match client.set_auth(Some("tok".to_string())) {
        Plan::Call(token) => assert_eq!(token, Some("tok".to_string())),
        other => panic!("unexpected {:?}", other),
    }
}
