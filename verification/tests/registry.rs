use pagi_gateway_core::canonical::{
    CanonicalAIRequest, ContentPart, GenerationConstraints, Message, MessageRole, Tool,
};
use pagi_gateway_core::config::{AdapterCapabilities, RequestReplayConfig};
use pagi_gateway_core::dispatch::{
    Dispatch, ForwardError, ForwardResponse, Step, TransportFailure, TransportReply,
};
use pagi_gateway_core::forward::replay_line;
use pagi_gateway_core::json::{Json, JsonNumber};
use pagi_gateway_core::proto::{to_proto, ProtoContentPart};
use pagi_gateway_core::registry::{
    AdapterInfo, AdapterRegistryState, RegisterAdapterRequest, RegistryError,
};
use pagi_gateway_core::request_id::RequestId;
use pagi_gateway_core::router::candidates;

fn registration(id: &str, endpoint: &str) -> RegisterAdapterRequest {
    RegisterAdapterRequest {
        adapter_id: id.to_string(),
        endpoint: endpoint.to_string(),
        capabilities: None,
        version: "1".to_string(),
    }
}

fn directory(ids: &[&str]) -> AdapterRegistryState {
    let mut state = AdapterRegistryState::new(RequestReplayConfig::default());
    for id in ids {
        let endpoint = format!("http://{}:50051", id);
        assert_eq!(state.register(registration(id, &endpoint)), Ok(()));
    }
    state
}

fn ids(adapters: &[AdapterInfo]) -> Vec<&str> {
    adapters.iter().map(|a| a.adapter_id.as_str()).collect()
}

fn request_for(adapter_id: Option<&str>) -> CanonicalAIRequest {
    let mut req = CanonicalAIRequest::chat_text_with_id(
        RequestId { value: 7 },
        Some("agent".to_string()),
        "hi".to_string(),
    );
    if let Some(id) = adapter_id {
        req.metadata.insert("adapter_id".to_string(), id.to_string());
    }
    req
}

fn reply(json: &str) -> Result<TransportReply, TransportFailure> {
    Ok(TransportReply { request_id: "r-1".to_string(), json: json.to_string() })
}

fn failure(message: &str) -> Result<TransportReply, TransportFailure> {
    Err(TransportFailure { message: message.to_string() })
}

fn info(id: &str) -> AdapterInfo {
    AdapterInfo {
        adapter_id: id.to_string(),
        endpoint: format!("http://{}:50051", id),
        capabilities: AdapterCapabilities::default(),
        version: "1".to_string(),
    }
}

#[test]
fn registry_starts_empty() {
    let st = AdapterRegistryState::new(RequestReplayConfig::default());
    assert!(st.is_empty());
    assert!(st.list().is_empty());
    assert_eq!(st.first(), None);
    assert_eq!(st.lookup("openrouter"), None);
}

#[test]
fn a_registration_needs_an_identity_and_an_endpoint() {
    let mut state = directory(&["b"]);
    assert_eq!(state.register(registration("", "http://a")), Err(RegistryError::InvalidAdapter));
    assert_eq!(state.register(registration("a", "")), Err(RegistryError::InvalidAdapter));
    assert_eq!(state.register(registration("", "")), Err(RegistryError::InvalidAdapter));
    assert_eq!(ids(&state.list()), vec!["b"]);
}

#[test]
fn a_registration_is_listed_with_what_it_declared() {
    let mut state = AdapterRegistryState::new(RequestReplayConfig::default());
    let capabilities = AdapterCapabilities {
        streaming: true,
        token_count: false,
        model_route: true,
        embed_cache: false,
    };
    let request = RegisterAdapterRequest {
        adapter_id: "ollama".to_string(),
        endpoint: "http://localhost:11434".to_string(),
        capabilities: Some(capabilities),
        version: "0.3.1".to_string(),
    };
    assert_eq!(state.register(request), Ok(()));
    assert!(!state.is_empty());
    assert_eq!(
        state.list(),
        vec![AdapterInfo {
            adapter_id: "ollama".to_string(),
            endpoint: "http://localhost:11434".to_string(),
            capabilities,
            version: "0.3.1".to_string(),
        }]
    );
    assert_eq!(state.lookup("ollama").map(|a| a.version), Some("0.3.1".to_string()));
    assert_eq!(state.lookup("ollam"), None);
    assert_eq!(state.lookup("ollamas"), None);
}

#[test]
fn nothing_declared_counts_as_no_capability() {
    let state = directory(&["x"]);
    assert_eq!(
        state.lookup("x").map(|a| a.capabilities),
        Some(AdapterCapabilities {
            streaming: false,
            token_count: false,
            model_route: false,
            embed_cache: false,
        })
    );
}

#[test]
fn the_last_registration_under_an_identity_wins() {
    let mut state = directory(&["m", "a", "z"]);
    let mut again = registration("m", "http://elsewhere");
    again.version = "2".to_string();
    again.capabilities = Some(AdapterCapabilities {
        streaming: true,
        token_count: true,
        model_route: true,
        embed_cache: true,
    });
    assert_eq!(state.register(again), Ok(()));
    assert_eq!(ids(&state.list()), vec!["a", "m", "z"]);
    let m = state.lookup("m").unwrap();
    assert_eq!(m.endpoint, "http://elsewhere");
    assert_eq!(m.version, "2");
    assert!(m.capabilities.embed_cache);
}

#[test]
fn the_listing_is_in_the_order_of_the_identities() {
    let state = directory(&["openrouter", "b", "ollama", "B", "a", "ab"]);
    assert_eq!(ids(&state.list()), vec!["B", "a", "ab", "b", "ollama", "openrouter"]);
    assert_eq!(state.first().map(|a| a.adapter_id), Some("B".to_string()));
    let state = directory(&["é", "z", "zz", "~"]);
    assert_eq!(ids(&state.list()), vec!["z", "zz", "~", "é"]);
}

#[test]
fn the_preferred_providers_come_first() {
    let state = directory(&["openrouter", "ollama", "z"]);
    assert_eq!(ids(&candidates(&state, &request_for(None))), vec!["openrouter", "ollama"]);
    let state = directory(&["a", "ollama", "openrouter"]);
    assert_eq!(ids(&candidates(&state, &request_for(None))), vec!["openrouter", "ollama"]);
}

#[test]
fn one_preferred_provider_alone_is_the_only_candidate() {
    let state = directory(&["a", "ollama", "z"]);
    assert_eq!(ids(&candidates(&state, &request_for(None))), vec!["ollama"]);
    let state = directory(&["a", "openrouter"]);
    assert_eq!(ids(&candidates(&state, &request_for(None))), vec!["openrouter"]);
}

#[test]
fn without_a_preferred_provider_the_least_identity_stands_in() {
    let state = directory(&["z"]);
    assert_eq!(ids(&candidates(&state, &request_for(None))), vec!["z"]);
    let state = directory(&["z", "m", "k"]);
    let found = candidates(&state, &request_for(None));
    assert_eq!(ids(&found), vec!["k"]);
    assert_eq!(found[0].endpoint, "http://k:50051");
}

#[test]
fn an_explicit_adapter_is_the_only_candidate() {
    let state = directory(&["openrouter", "ollama", "z"]);
    assert_eq!(ids(&candidates(&state, &request_for(Some("z")))), vec!["z"]);
    assert_eq!(ids(&candidates(&state, &request_for(Some("ollama")))), vec!["ollama"]);
}

#[test]
fn an_explicit_adapter_that_is_not_registered_leaves_no_candidate() {
    let state = directory(&["openrouter", "ollama", "z"]);
    assert!(candidates(&state, &request_for(Some("missing"))).is_empty());
    let plan = state.forward(request_for(Some("missing")));
    assert_eq!(
        plan.dispatch.step(),
        Step::Unavailable(ForwardError::NoAdapterAvailable { last_failure: None })
    );
}

#[test]
fn an_empty_directory_leaves_no_candidate() {
    let state = directory(&[]);
    assert!(candidates(&state, &request_for(None)).is_empty());
    assert!(candidates(&state, &request_for(Some("openrouter"))).is_empty());
    let plan = state.forward(request_for(None));
    assert_eq!(
        plan.dispatch.step(),
        Step::Unavailable(ForwardError::NoAdapterAvailable { last_failure: None })
    );
}

#[test]
fn the_first_answer_ends_the_run() {
    let mut run = Dispatch::new(vec![info("a"), info("b"), info("c")]);
    let mut called = Vec::new();
    match run.step() {
        Step::Attempt(adapter) => called.push(adapter.adapter_id),
        other => panic!("expected an attempt, got {:?}", other),
    }
    run.report(failure("a is down"));
    match run.step() {
        Step::Attempt(adapter) => {
            assert_eq!(adapter.endpoint, "http://b:50051");
            called.push(adapter.adapter_id);
        },
        other => panic!("expected an attempt, got {:?}", other),
    }
    run.report(reply("{\"text\":\"hello\"}"));
    let served = Step::Served(ForwardResponse {
        request_id: "r-1".to_string(),
        adapter_id: "b".to_string(),
        json: "{\"text\":\"hello\"}".to_string(),
    });
    assert_eq!(run.step(), served);
    assert_eq!(called, vec!["a".to_string(), "b".to_string()]);
    run.report(failure("late"));
    run.report(reply("late"));
    assert_eq!(run.step(), served);
}

#[test]
fn an_answer_at_once_is_served_by_the_first_candidate() {
    let mut run = Dispatch::new(vec![info("a"), info("b")]);
    assert_eq!(run.step(), Step::Attempt(info("a")));
    assert_eq!(run.step(), Step::Attempt(info("a")));
    run.report(reply("1"));
    assert_eq!(
        run.step(),
        Step::Served(ForwardResponse {
            request_id: "r-1".to_string(),
            adapter_id: "a".to_string(),
            json: "1".to_string(),
        })
    );
}

#[test]
fn when_every_candidate_fails_the_last_failure_is_handed_on() {
    let mut run = Dispatch::new(vec![info("a"), info("b")]);
    assert_eq!(run.step(), Step::Attempt(info("a")));
    run.report(failure("first"));
    assert_eq!(run.step(), Step::Attempt(info("b")));
    run.report(failure("second"));
    let ended = Step::Unavailable(ForwardError::NoAdapterAvailable {
        last_failure: Some(TransportFailure { message: "second".to_string() }),
    });
    assert_eq!(run.step(), ended);
    run.report(reply("too late"));
    assert_eq!(run.step(), ended);
}

#[test]
fn without_candidates_no_adapter_is_called() {
    let mut run = Dispatch::new(vec![]);
    let ended = Step::Unavailable(ForwardError::NoAdapterAvailable { last_failure: None });
    assert_eq!(run.step(), ended);
    run.report(reply("nobody asked"));
    assert_eq!(run.step(), ended);
}

#[test]
fn answers_and_failures_can_be_copied() {
    let response = ForwardResponse {
        request_id: "r".to_string(),
        adapter_id: "a".to_string(),
        json: "{}".to_string(),
    };
    assert_eq!(response.clone(), response);
    let failure = TransportFailure { message: "down".to_string() };
    assert_eq!(failure.clone(), failure);
    assert_eq!(info("a").clone(), info("a"));
}

#[test]
fn the_error_says_what_failed_last() {
    let none = ForwardError::NoAdapterAvailable { last_failure: None };
    assert_eq!(none.message(), "no adapters registered");
    let some = ForwardError::NoAdapterAvailable {
        last_failure: Some(TransportFailure { message: "connection refused".to_string() }),
    };
    assert_eq!(some.message(), "connection refused");
}

#[test]
fn forwarding_runs_over_the_routed_candidates() {
    let state = directory(&["openrouter", "ollama", "z"]);
    let mut plan = state.forward(request_for(None));
    assert_eq!(plan.replay_line, None);
    assert_eq!(plan.request.request_id, "00000000-0000-0000-0000-000000000007");
    match plan.dispatch.step() {
        Step::Attempt(adapter) => assert_eq!(adapter.adapter_id, "openrouter"),
        other => panic!("expected an attempt, got {:?}", other),
    }
    plan.dispatch.report(failure("down"));
    match plan.dispatch.step() {
        Step::Attempt(adapter) => assert_eq!(adapter.adapter_id, "ollama"),
        other => panic!("expected an attempt, got {:?}", other),
    }
    plan.dispatch.report(failure("down too"));
    assert_eq!(
        plan.dispatch.step(),
        Step::Unavailable(ForwardError::NoAdapterAvailable {
            last_failure: Some(TransportFailure { message: "down too".to_string() }),
        })
    );
}

#[test]
fn the_replay_line_is_the_wire_form_where_recording_is_on() {
    let on = RequestReplayConfig { enabled: true, path: "./r.log".to_string() };
    let off = RequestReplayConfig { enabled: false, path: "./r.log".to_string() };
    let req = request_for(Some("x"));
    let expected = req.to_json_text();
    assert!(expected.starts_with("{\"agent_id\":\"agent\","));
    assert!(!expected.contains('\n'));
    assert_eq!(replay_line(&on, &req), Some(expected.clone()));
    assert_eq!(replay_line(&off, &req), None);

    let mut state = AdapterRegistryState::new(on);
    assert_eq!(state.register(registration("x", "http://x")), Ok(()));
    assert!(state.replay().enabled);
    assert_eq!(state.replay().path, "./r.log");
    let plan = state.forward(req);
    assert_eq!(plan.replay_line, Some(expected));
    let undeliverable = state.forward(request_for(Some("missing")));
    assert!(undeliverable.replay_line.is_some());
}

#[test]
fn the_schema_has_sentinels_for_what_is_not_set() {
    let req = CanonicalAIRequest::with_id(RequestId {
        value: 0xa1a2_a3a4_b1b2_c1c2_d1d2_d3d4_d5d6_d7d8,
    });
    let out = to_proto(req);
    assert_eq!(out.request_id, "a1a2a3a4-b1b2-c1c2-d1d2-d3d4d5d6d7d8");
    assert_eq!(out.agent_id, "");
    assert_eq!(out.session_id, "");
    assert!(out.messages.is_empty());
    assert!(out.tools.is_empty());
    assert_eq!(out.tool_choice, "");
    assert_eq!(out.preferred_model, "");
    assert_eq!(out.response_format_json_schema, "");
    assert_eq!(out.metadata.len(), 0);
    let c = out.constraints.unwrap();
    assert_eq!(c.max_tokens, 0);
    assert_eq!(c.top_k, 0);
    assert_eq!(c.temperature, JsonNumber::PosInt(0));
    assert_eq!(c.top_p, JsonNumber::PosInt(0));
    assert_eq!(c.presence_penalty, JsonNumber::PosInt(0));
    assert_eq!(c.frequency_penalty, JsonNumber::PosInt(0));
    assert!(c.stop_sequences.is_empty());
    assert_eq!(c.reasoning_effort, "");
    assert!(!c.stream);
}

#[test]
fn the_schema_carries_every_field_over() {
    let mut req = CanonicalAIRequest::with_id(RequestId { value: 1 });
    req.agent_id = Some("agent".to_string());
    req.session_id = Some("session".to_string());
    req.tool_choice = Some("none".to_string());
    req.preferred_model = Some("m".to_string());
    req.metadata.insert("k".to_string(), "v".to_string());
    req.response_format = Some(Json::Object(vec![
        ("type".to_string(), Json::String("object".to_string())),
        ("additionalProperties".to_string(), Json::Bool(false)),
    ]));
    req.messages = vec![
        Message {
            role: MessageRole::System,
            content: vec![ContentPart::Text { text: "s".to_string() }],
            name: None,
            tool_call_id: None,
        },
        Message {
            role: MessageRole::User,
            content: vec![
                ContentPart::Image { url: "i".to_string() },
                ContentPart::Audio { url: "a".to_string() },
                ContentPart::File { url: "f".to_string(), mime_type: "m".to_string() },
            ],
            name: Some("n".to_string()),
            tool_call_id: None,
        },
        Message { role: MessageRole::Assistant, content: vec![], name: None, tool_call_id: None },
        Message {
            role: MessageRole::Tool,
            content: vec![],
            name: None,
            tool_call_id: Some("c".to_string()),
        },
    ];
    req.tools = vec![
        Tool {
            name: "t".to_string(),
            description: Some("d".to_string()),
            parameters_json_schema: Some(Json::Array(vec![
                Json::Number(JsonNumber::PosInt(1)),
                Json::Number(JsonNumber::NegInt(-2)),
                Json::Null,
            ])),
            strict: true,
        },
        Tool {
            name: "u".to_string(),
            description: None,
            parameters_json_schema: None,
            strict: false,
        },
    ];
    req.constraints = GenerationConstraints {
        max_tokens: Some(9),
        temperature: Some(JsonNumber::PosInt(1)),
        top_p: Some(JsonNumber::NegInt(-1)),
        top_k: Some(3),
        stop_sequences: vec!["x".to_string(), "y".to_string()],
        presence_penalty: None,
        frequency_penalty: Some(JsonNumber::PosInt(2)),
        reasoning_effort: Some("high".to_string()),
        stream: true,
    };
    let out = to_proto(req);
    assert_eq!(out.request_id, "00000000-0000-0000-0000-000000000001");
    assert_eq!(out.agent_id, "agent");
    assert_eq!(out.session_id, "session");
    assert_eq!(out.tool_choice, "none");
    assert_eq!(out.preferred_model, "m");
    assert_eq!(out.metadata.get("k").map(|s| s.as_str()), Some("v"));
    assert_eq!(out.response_format_json_schema, r#"{"additionalProperties":false,"type":"object"}"#);
    let roles: Vec<i32> = out.messages.iter().map(|m| m.role).collect();
    assert_eq!(roles, vec![1, 2, 3, 4]);
    assert_eq!(out.messages[0].content, vec![ProtoContentPart::Text { text: "s".to_string() }]);
    assert_eq!(
        out.messages[1].content,
        vec![
            ProtoContentPart::Image { url: "i".to_string() },
            ProtoContentPart::Audio { url: "a".to_string() },
            ProtoContentPart::File { url: "f".to_string(), mime_type: "m".to_string() },
        ]
    );
    assert_eq!(out.messages[1].name, "n");
    assert_eq!(out.messages[1].tool_call_id, "");
    assert_eq!(out.messages[3].name, "");
    assert_eq!(out.messages[3].tool_call_id, "c");
    assert_eq!(out.tools.len(), 2);
    assert_eq!(out.tools[0].name, "t");
    assert_eq!(out.tools[0].description, "d");
    assert_eq!(out.tools[0].parameters_json_schema, "[1,-2,null]");
    assert!(out.tools[0].strict);
    assert_eq!(out.tools[1].description, "");
    assert_eq!(out.tools[1].parameters_json_schema, "");
    let c = out.constraints.unwrap();
    assert_eq!(c.max_tokens, 9);
    assert_eq!(c.temperature, JsonNumber::PosInt(1));
    assert_eq!(c.top_p, JsonNumber::NegInt(-1));
    assert_eq!(c.top_k, 3);
    assert_eq!(c.stop_sequences, vec!["x".to_string(), "y".to_string()]);
    assert_eq!(c.presence_penalty, JsonNumber::PosInt(0));
    assert_eq!(c.frequency_penalty, JsonNumber::PosInt(2));
    assert_eq!(c.reasoning_effort, "high");
    assert!(c.stream);
}
