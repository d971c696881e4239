use pagi_gateway_core::bus::Bus;
use pagi_gateway_core::config::{
    default_metrics_path, default_replay_path, parse_config_path_from_args, resolve_config_path,
    AdapterCapabilities, ObservabilityConfig, RequestReplayConfig,
};
use pagi_gateway_core::digital_twin::DigitalTwin;
use pagi_gateway_core::dispatch::{ForwardError, ForwardResponse, Step, TransportFailure};
use pagi_gateway_core::json::Json;
use pagi_gateway_core::middleware::rate_limit::quota_per_second;
use pagi_gateway_core::protocols::graphql::{
    action_of, GraphqlAction, GraphqlOutcome, HttpGraphQLRequest,
};
use pagi_gateway_core::protocols::http::{route_of, Route};
use pagi_gateway_core::protocols::rest::IngressError;
use pagi_gateway_core::protocols::rest_call::{
    answer, client_key, plan_call, rejection, screen, CallPlan, RestCallResponse, RestOutcome,
    CALLS_PER_SECOND,
};
use pagi_gateway_core::registry::{AdapterRegistryState, RegisterAdapterRequest};
use pagi_gateway_core::request_id::RequestId;

fn args(list: &[&str]) -> Vec<String> {
    list.iter().map(|a| a.to_string()).collect()
}

#[test]
fn every_path_goes_to_its_front_door() {
    assert_eq!(route_of("GET", "/healthz"), Route::Health);
    assert_eq!(route_of("GET", "/metrics"), Route::Metrics);
    assert_eq!(route_of("POST", "/v1/ai:call"), Route::RestCall);
    assert_eq!(route_of("POST", "/api/call"), Route::RestCall);
    assert_eq!(route_of("GET", "/graphql"), Route::GraphQl);
    assert_eq!(route_of("POST", "/graphql"), Route::GraphQl);
}

#[test]
fn anything_else_goes_nowhere() {
    assert_eq!(route_of("POST", "/healthz"), Route::NotFound);
    assert_eq!(route_of("POST", "/metrics"), Route::NotFound);
    assert_eq!(route_of("GET", "/v1/ai:call"), Route::NotFound);
    assert_eq!(route_of("GET", "/api/call"), Route::NotFound);
    assert_eq!(route_of("PUT", "/graphql"), Route::NotFound);
    assert_eq!(route_of("get", "/healthz"), Route::NotFound);
    assert_eq!(route_of("GET", "/healthz/"), Route::NotFound);
    assert_eq!(route_of("GET", "/"), Route::NotFound);
    assert_eq!(route_of("", ""), Route::NotFound);
}

#[test]
fn the_graphql_door_goes_by_the_method() {
    assert_eq!(action_of("GET"), GraphqlAction::Describe);
    assert_eq!(action_of("POST"), GraphqlAction::Execute);
    assert_eq!(action_of("PUT"), GraphqlAction::NotAllowed);
    assert_eq!(action_of("post"), GraphqlAction::NotAllowed);
    assert_eq!(action_of(""), GraphqlAction::NotAllowed);
}

#[test]
fn the_graphql_door_answers_with_these_statuses() {
    assert_eq!(GraphqlOutcome::Described.status(), 200);
    assert_eq!(
        GraphqlOutcome::Described.text().as_deref(),
        Some("GraphQL endpoint. Send POST /graphql with {query, variables, operationName}.")
    );
    assert_eq!(GraphqlOutcome::InvalidRequest.status(), 400);
    assert_eq!(
        GraphqlOutcome::InvalidRequest.text().as_deref(),
        Some("invalid graphql http request")
    );
    assert_eq!(GraphqlOutcome::Executed.status(), 200);
    assert_eq!(GraphqlOutcome::Executed.text(), None);
    assert_eq!(GraphqlOutcome::MethodNotAllowed.status(), 405);
    assert_eq!(GraphqlOutcome::MethodNotAllowed.text().as_deref(), Some("method not allowed"));
}

#[test]
fn a_graphql_request_needs_a_query() {
    let full = HttpGraphQLRequest::from_text(
        br#"{"query":"{ ping }","variables":{"a":1},"operationName":"Ping"}"#,
    )
    .unwrap();
    assert_eq!(full.query, "{ ping }");
    assert_eq!(full.operation_name.as_deref(), Some("Ping"));
    assert_eq!(full.variables, Json::parse(br#"{"a":1}"#).unwrap());
    assert!(full.has_variables());

    let bare = HttpGraphQLRequest::from_text(br#"{"query":"{ ping }"}"#).unwrap();
    assert_eq!(bare.variables, Json::Null);
    assert_eq!(bare.operation_name, None);
    assert!(!bare.has_variables());

    let nulls = HttpGraphQLRequest::from_text(
        br#"{"query":"q","variables":null,"operationName":null}"#,
    )
    .unwrap();
    assert!(!nulls.has_variables());
    assert_eq!(nulls.operation_name, None);

    assert_eq!(HttpGraphQLRequest::from_text(br#"{"variables":{}}"#), None);
    assert_eq!(HttpGraphQLRequest::from_text(br#"{"query":7}"#), None);
    assert_eq!(HttpGraphQLRequest::from_text(br#"{"query":"q","operationName":7}"#), None);
    assert_eq!(HttpGraphQLRequest::from_text(br#"{"query":"q""#), None);
    assert_eq!(HttpGraphQLRequest::from_text(b"[]"), None);
}

#[test]
fn a_caller_is_screened_before_the_body_is_read() {
    assert_eq!(screen(false, true), Some(RestOutcome::Unauthorized));
    assert_eq!(screen(false, false), Some(RestOutcome::Unauthorized));
    assert_eq!(screen(true, false), Some(RestOutcome::RateLimited));
    assert_eq!(screen(true, true), None);
}

#[test]
fn every_outcome_has_its_status_and_body() {
    let cases = [
        (RestOutcome::Unauthorized, 401, "401", "unauthorized"),
        (RestOutcome::RateLimited, 429, "429", "rate limited"),
        (RestOutcome::InvalidJson, 400, "400", "invalid json"),
        (RestOutcome::MessagesRequired, 400, "400", "messages required"),
        (RestOutcome::Unavailable, 503, "503", "no adapter available"),
    ];
    for (outcome, status, label, body) in cases {
        assert_eq!(outcome.status(), status);
        assert_eq!(outcome.label(), label);
        assert_eq!(outcome.body(), body);
        assert!(!outcome.is_json());
    }
    let served = RestOutcome::Served(RestCallResponse {
        request_id: "r".to_string(),
        adapter_id: "ollama".to_string(),
        json: "{\"text\":\"hi\"}".to_string(),
    });
    assert_eq!(served.status(), 200);
    assert_eq!(served.label(), "200");
    assert!(served.is_json());
    assert_eq!(
        served.body(),
        r#"{"adapter_id":"ollama","json":"{\"text\":\"hi\"}","request_id":"r"}"#
    );
}

#[test]
fn a_rejected_body_ends_the_call_with_its_reason() {
    assert_eq!(rejection(IngressError::MalformedIngress), RestOutcome::InvalidJson);
    assert_eq!(rejection(IngressError::ValidationFailed), RestOutcome::MessagesRequired);
}

#[test]
fn how_forwarding_ended_decides_the_answer() {
    let served = answer(Ok(ForwardResponse {
        request_id: "r".to_string(),
        adapter_id: "a".to_string(),
        json: "j".to_string(),
    }));
    assert_eq!(
        served,
        RestOutcome::Served(RestCallResponse {
            request_id: "r".to_string(),
            adapter_id: "a".to_string(),
            json: "j".to_string(),
        })
    );
    assert_eq!(
        answer(Err(ForwardError::NoAdapterAvailable { last_failure: None })),
        RestOutcome::Unavailable
    );
    assert_eq!(
        answer(Err(ForwardError::NoAdapterAvailable {
            last_failure: Some(TransportFailure { message: "down".to_string() }),
        })),
        RestOutcome::Unavailable
    );
}

fn recording_directory() -> AdapterRegistryState {
    let mut state = AdapterRegistryState::new(RequestReplayConfig {
        enabled: true,
        path: "./replay.log".to_string(),
    });
    let registered = state.register(RegisterAdapterRequest {
        adapter_id: "ollama".to_string(),
        endpoint: "http://localhost:11434".to_string(),
        capabilities: Some(AdapterCapabilities::default()),
        version: "1".to_string(),
    });
    assert_eq!(registered, Ok(()));
    state
}

#[test]
fn a_body_without_messages_is_never_recorded_or_sent() {
    let state = recording_directory();
    let fresh = RequestId { value: 3 };
    match plan_call(&state, br#"{"messages": []}"#, fresh) {
        CallPlan::Reject(outcome) => assert_eq!(outcome, RestOutcome::MessagesRequired),
        CallPlan::Forward(_) => panic!("a body without messages was forwarded"),
    }
    match plan_call(&state, br#"{"messages": "#, fresh) {
        CallPlan::Reject(outcome) => assert_eq!(outcome, RestOutcome::InvalidJson),
        CallPlan::Forward(_) => panic!("a malformed body was forwarded"),
    }
    match plan_call(&state, br#"{"messages": [{"role": "nobody"}]}"#, fresh) {
        CallPlan::Reject(outcome) => assert_eq!(outcome, RestOutcome::InvalidJson),
        CallPlan::Forward(_) => panic!("a malformed body was forwarded"),
    }
}

#[test]
fn an_accepted_body_is_recorded_and_forwarded() {
    let state = recording_directory();
    let fresh = RequestId { value: 3 };
    match plan_call(&state, br#"{"agent_id":"a","payload":"hello"}"#, fresh) {
        CallPlan::Forward(plan) => {
            let line = plan.replay_line.expect("recording is on");
            assert!(line.contains("\"request_id\":\"00000000-0000-0000-0000-000000000003\""));
            assert!(line.contains("\"text\":\"hello\""));
            assert_eq!(plan.request.agent_id, "a");
            assert_eq!(plan.request.messages.len(), 1);
            match plan.dispatch.step() {
                Step::Attempt(adapter) => assert_eq!(adapter.endpoint, "http://localhost:11434"),
                other => panic!("expected an attempt, got {:?}", other),
            }
        },
        CallPlan::Reject(outcome) => panic!("the body was rejected: {:?}", outcome),
    }
}

#[test]
fn a_client_is_counted_under_the_forwarded_address() {
    assert_eq!(client_key(Some("10.1.2.3")), "10.1.2.3");
    assert_eq!(client_key(Some("")), "");
    assert_eq!(client_key(None), "127.0.0.1");
    assert_eq!(CALLS_PER_SECOND, 50);
}

#[test]
fn a_limiter_grants_at_least_one_call() {
    assert_eq!(quota_per_second(0), 1);
    assert_eq!(quota_per_second(1), 1);
    assert_eq!(quota_per_second(50), 50);
    assert_eq!(quota_per_second(u32::MAX), u32::MAX);
}

#[test]
fn the_config_path_is_found_among_the_arguments() {
    assert_eq!(parse_config_path_from_args(&args(&[])), None);
    assert_eq!(parse_config_path_from_args(&args(&["--verbose"])), None);
    assert_eq!(
        parse_config_path_from_args(&args(&["--config", "a.yaml"])),
        Some("a.yaml".to_string())
    );
    assert_eq!(
        parse_config_path_from_args(&args(&["-v", "--config=b.yaml", "--config", "c.yaml"])),
        Some("b.yaml".to_string())
    );
    assert_eq!(
        parse_config_path_from_args(&args(&["--config", "c.yaml", "--config=b.yaml"])),
        Some("c.yaml".to_string())
    );
    assert_eq!(parse_config_path_from_args(&args(&["x", "--config"])), None);
    assert_eq!(parse_config_path_from_args(&args(&["--config="])), Some(String::new()));
    assert_eq!(
        parse_config_path_from_args(&args(&["--config=é/ü.yaml"])),
        Some("é/ü.yaml".to_string())
    );
    assert_eq!(parse_config_path_from_args(&args(&["--configs=a", "--confi"])), None);
    assert_eq!(
        parse_config_path_from_args(&args(&["--config", "--config=a"])),
        Some("--config=a".to_string())
    );
}

#[test]
fn the_config_path_falls_back_to_the_environment_and_the_default() {
    assert_eq!(
        resolve_config_path(Some("a".to_string()), Some("b".to_string())),
        "a"
    );
    assert_eq!(resolve_config_path(None, Some("b".to_string())), "b");
    assert_eq!(resolve_config_path(None, None), "../config/pagi.yaml");
}

#[test]
fn the_defaults_are_these() {
    assert_eq!(default_metrics_path(), "/metrics");
    assert_eq!(default_replay_path(), "./replay.log");
    let replay = RequestReplayConfig::default();
    assert!(!replay.enabled);
    assert_eq!(replay.path, "./replay.log");
    let copy = replay.clone();
    assert_eq!(copy.enabled, replay.enabled);
    assert_eq!(copy.path, replay.path);
    assert_eq!(ObservabilityConfig::default().metrics_path, "");
    assert_eq!(
        AdapterCapabilities::default(),
        AdapterCapabilities {
            streaming: false,
            token_count: false,
            model_route: false,
            embed_cache: false,
        }
    );
}

#[test]
fn a_bus_and_a_twin_can_be_made() {
    assert_eq!(Bus::new(), Bus);
    assert_eq!(Bus::default(), Bus::new());
    assert_eq!(DigitalTwin::new(), DigitalTwin);
    assert_eq!(DigitalTwin::default(), DigitalTwin::new());
}
