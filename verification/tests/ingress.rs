use pagi_gateway_core::canonical::{
    CanonicalAIRequest, ContentPart, GenerationConstraints, Message, MessageRole, Tool,
};
use pagi_gateway_core::json::{Json, JsonNumber};
use pagi_gateway_core::protocols::rest::{
    apply_preferred_provider, lower_parts, normalize, normalize_new, normalize_text, validate,
    CanonicalIngressRequest, FileOnly, IngressError, LegacyPayload, RestContentPartInput,
    RestIngressRequest, UrlOnly,
};
use pagi_gateway_core::request_id::RequestId;

fn fresh() -> RequestId {
    RequestId { value: 0x0123_4567_89ab_4def_8123_4567_89ab_cdef }
}

fn parse(text: &str) -> Json {
    Json::parse(text.as_bytes()).expect("the test text is JSON")
}

fn text_part(text: &str) -> ContentPart {
    ContentPart::Text { text: text.to_string() }
}

#[test]
fn serde_roundtrip() {
    let req = CanonicalAIRequest::chat_text(Some("a".to_string()), "hello".to_string());
    let j = req.to_json_text();
    let back = normalize_text(j.as_bytes(), RequestId { value: 0 }).unwrap();
    assert_eq!(back.agent_id.as_deref(), Some("a"));
    assert_eq!(back.messages.len(), 1);
}

#[test]
fn parses_legacy_v0() {
    let j = r#"{"agent_id":"a","payload":"hello"}"#;
    let raw = Json::parse(j.as_bytes()).unwrap();
    let parsed = RestIngressRequest::from_json(&raw).unwrap();
    match parsed {
        RestIngressRequest::V0(v) => assert_eq!(v.payload, "hello"),
        _ => panic!("expected v0"),
    }
}

#[test]
fn parses_content_part_shorthand() {
    let j = r#"{
          "messages": [{
            "role": "user",
            "content": [{"text":"hi"}, {"image": {"url": "https://e/x.png"}}]
          }]
        }"#;
    let raw = Json::parse(j.as_bytes()).unwrap();
    let parsed = CanonicalIngressRequest::from_json(&raw).unwrap();
    assert_eq!(parsed.messages.len(), 1);
    assert_eq!(parsed.messages[0].content.len(), 2);
}

#[test]
fn legacy_minimal_becomes_one_user_message() {
    let raw = parse(r#"{"agent_id":"agent-7","payload":"what is the weather"}"#);
    let req = normalize(&raw, fresh()).unwrap();
    assert_eq!(req.request_id, fresh());
    assert_eq!(req.agent_id.as_deref(), Some("agent-7"));
    assert_eq!(req.session_id, None);
    assert_eq!(
        req.messages,
        vec![Message {
            role: MessageRole::User,
            content: vec![text_part("what is the weather")],
            name: None,
            tool_call_id: None,
        }]
    );
    assert!(req.tools.is_empty());
    assert!(!req.metadata.contains_key("legacy_intent"));
    assert_eq!(req.metadata.len(), 0);
    assert_eq!(req.constraints, GenerationConstraints::default());
}

#[test]
fn legacy_intent_keeps_the_intent_in_the_metadata() {
    let raw = parse(r#"{"agent_id":"a","intent":"summarize","payload":{"text":"long text"}}"#);
    let req = normalize(&raw, fresh()).unwrap();
    assert_eq!(req.agent_id.as_deref(), Some("a"));
    assert_eq!(req.messages.len(), 1);
    assert_eq!(req.messages[0].role, MessageRole::User);
    assert_eq!(req.messages[0].content, vec![text_part("long text")]);
    assert_eq!(req.metadata.get("legacy_intent").map(|s| s.as_str()), Some("summarize"));
}

#[test]
fn legacy_intent_with_a_json_payload_carries_its_compact_text() {
    let raw = parse(
        r#"{"agent_id":"a","intent":"run","payload":{"json":{"b": 1, "a": [true, null, "x"]}}}"#,
    );
    let req = normalize(&raw, fresh()).unwrap();
    assert_eq!(req.messages[0].content, vec![text_part(r#"{"a":[true,null,"x"],"b":1}"#)]);
    assert_eq!(req.metadata.get("legacy_intent").map(|s| s.as_str()), Some("run"));
}

#[test]
fn legacy_intent_with_a_null_json_payload_carries_null() {
    let raw = parse(r#"{"agent_id":"a","intent":"run","payload":{"json":null}}"#);
    match RestIngressRequest::from_json(&raw).unwrap() {
        RestIngressRequest::V1(v) => assert_eq!(v.payload, LegacyPayload::Json { json: Json::Null }),
        other => panic!("expected v1, got {:?}", other),
    }
    let req = normalize(&raw, fresh()).unwrap();
    assert_eq!(req.messages[0].content, vec![text_part("null")]);
}

#[test]
fn legacy_payload_prefers_text_over_json() {
    let raw = parse(r#"{"agent_id":"a","intent":"i","payload":{"json":{"k":1},"text":"t"}}"#);
    let req = normalize(&raw, fresh()).unwrap();
    assert_eq!(req.messages[0].content, vec![text_part("t")]);
}

#[test]
fn the_oldest_shape_wins_over_the_later_ones() {
    let raw = parse(
        r#"{"agent_id":"a","payload":"p","intent":"i",
            "messages":[{"role":"system","content":[{"text":"ignored"}]}]}"#,
    );
    match RestIngressRequest::from_json(&raw).unwrap() {
        RestIngressRequest::V0(v) => {
            assert_eq!(v.agent_id, "a");
            assert_eq!(v.payload, "p");
        },
        other => panic!("expected v0, got {:?}", other),
    }
    let req = normalize(&raw, fresh()).unwrap();
    assert_eq!(req.messages[0].content, vec![text_part("p")]);
    assert!(!req.metadata.contains_key("legacy_intent"));
}

#[test]
fn the_structured_legacy_shape_wins_over_the_current_one() {
    let raw = parse(
        r#"{"agent_id":"a","intent":"i","payload":{"text":"t"},
            "messages":[{"role":"system","content":[{"text":"ignored"}]}]}"#,
    );
    assert!(matches!(RestIngressRequest::from_json(&raw), Some(RestIngressRequest::V1(_))));
}

#[test]
fn a_payload_that_is_no_string_is_not_the_oldest_shape() {
    let raw = parse(r#"{"agent_id":"a","payload":7,"messages":[{"role":"user"}]}"#);
    assert!(matches!(RestIngressRequest::from_json(&raw), Some(RestIngressRequest::V2(_))));
}

#[test]
fn shorthand_parts_are_lowered_in_order() {
    let raw = parse(
        r#"{"messages":[{"role":"user","content":[{"text":"hi"}, {"image":{"url":"u"}}]}]}"#,
    );
    let req = normalize(&raw, fresh()).unwrap();
    assert_eq!(
        req.messages[0].content,
        vec![text_part("hi"), ContentPart::Image { url: "u".to_string() }]
    );
}

#[test]
fn every_part_form_is_accepted() {
    let raw = parse(
        r#"{"messages":[{"role":"assistant","content":[
            {"type":"text","text":"a"},
            {"type":"image","url":"i"},
            {"type":"audio","url":"s"},
            {"type":"file","url":"f","mime_type":"text/plain"},
            {"text":"b"},
            {"image":{"url":"j"}},
            {"audio":{"url":"t"}},
            {"file":{"url":"g","mime_type":"application/pdf"}}
        ]}]}"#,
    );
    let parsed = CanonicalIngressRequest::from_json(&raw).unwrap();
    assert_eq!(
        parsed.messages[0].content,
        vec![
            RestContentPartInput::Canonical(text_part("a")),
            RestContentPartInput::Canonical(ContentPart::Image { url: "i".to_string() }),
            RestContentPartInput::Canonical(ContentPart::Audio { url: "s".to_string() }),
            RestContentPartInput::Canonical(ContentPart::File {
                url: "f".to_string(),
                mime_type: "text/plain".to_string(),
            }),
            RestContentPartInput::Text { text: "b".to_string() },
            RestContentPartInput::Image { image: UrlOnly { url: "j".to_string() } },
            RestContentPartInput::Audio { audio: UrlOnly { url: "t".to_string() } },
            RestContentPartInput::File {
                file: FileOnly { url: "g".to_string(), mime_type: "application/pdf".to_string() },
            },
        ]
    );
    let req = normalize(&raw, fresh()).unwrap();
    assert_eq!(req.messages[0].role, MessageRole::Assistant);
    assert_eq!(
        req.messages[0].content,
        vec![
            text_part("a"),
            ContentPart::Image { url: "i".to_string() },
            ContentPart::Audio { url: "s".to_string() },
            ContentPart::File { url: "f".to_string(), mime_type: "text/plain".to_string() },
            text_part("b"),
            ContentPart::Image { url: "j".to_string() },
            ContentPart::Audio { url: "t".to_string() },
            ContentPart::File { url: "g".to_string(), mime_type: "application/pdf".to_string() },
        ]
    );
}

#[test]
fn a_tagged_part_that_lacks_its_field_falls_back_to_the_shorthand() {
    let raw = parse(r#"{"messages":[{"role":"user","content":[{"type":"image","text":"t"}]}]}"#);
    let parsed = CanonicalIngressRequest::from_json(&raw).unwrap();
    assert_eq!(
        parsed.messages[0].content,
        vec![RestContentPartInput::Text { text: "t".to_string() }]
    );
}

#[test]
fn lowering_keeps_every_part_at_its_place() {
    let written = vec![
        RestContentPartInput::Audio { audio: UrlOnly { url: "1".to_string() } },
        RestContentPartInput::Canonical(text_part("2")),
        RestContentPartInput::Text { text: "3".to_string() },
    ];
    assert_eq!(
        lower_parts(written),
        vec![ContentPart::Audio { url: "1".to_string() }, text_part("2"), text_part("3")]
    );
    assert_eq!(lower_parts(vec![]), vec![]);
}

#[test]
fn preferred_provider_names_the_adapter_where_none_is_given() {
    let raw = parse(
        r#"{"messages":[{"role":"user","content":[{"text":"hi"}]}],
            "metadata":{"preferred_provider":"x"}}"#,
    );
    let req = normalize(&raw, fresh()).unwrap();
    assert_eq!(req.metadata.get("adapter_id").map(|s| s.as_str()), Some("x"));
    assert_eq!(req.metadata.get("preferred_provider").map(|s| s.as_str()), Some("x"));
}

#[test]
fn an_explicit_adapter_id_stays() {
    let raw = parse(
        r#"{"messages":[{"role":"user","content":[{"text":"hi"}]}],
            "metadata":{"adapter_id":"y","preferred_provider":"x"}}"#,
    );
    let req = normalize(&raw, fresh()).unwrap();
    assert_eq!(req.metadata.get("adapter_id").map(|s| s.as_str()), Some("y"));
}

#[test]
fn without_a_provider_no_adapter_id_appears() {
    let mut req = CanonicalAIRequest::chat_text_with_id(fresh(), None, "t".to_string());
    req.metadata.insert("tenant".to_string(), "acme".to_string());
    apply_preferred_provider(&mut req);
    assert!(!req.metadata.contains_key("adapter_id"));
    assert_eq!(req.metadata.get("tenant").map(|s| s.as_str()), Some("acme"));
}

#[test]
fn empty_messages_are_rejected() {
    let raw = parse(r#"{"messages":[]}"#);
    assert_eq!(normalize(&raw, fresh()), Err(IngressError::ValidationFailed));
    let raw = parse(r#"{}"#);
    assert_eq!(normalize(&raw, fresh()), Err(IngressError::ValidationFailed));
    let raw = parse(r#"{"agent_id":"a","metadata":{"preferred_provider":"x"}}"#);
    assert_eq!(normalize(&raw, fresh()), Err(IngressError::ValidationFailed));
    assert_eq!(
        normalize_text(br#"{"messages": []}"#, fresh()),
        Err(IngressError::ValidationFailed)
    );
}

#[test]
fn validate_asks_for_a_message() {
    let empty = CanonicalAIRequest::with_id(fresh());
    assert_eq!(validate(&empty), Err(IngressError::ValidationFailed));
    let one = CanonicalAIRequest::chat_text_with_id(fresh(), None, "t".to_string());
    assert_eq!(validate(&one), Ok(()));
}

#[test]
fn a_message_without_content_counts_as_a_message() {
    let raw = parse(r#"{"messages":[{"role":"tool","tool_call_id":"c1","name":"lookup"}]}"#);
    let req = normalize(&raw, fresh()).unwrap();
    assert_eq!(
        req.messages,
        vec![Message {
            role: MessageRole::Tool,
            content: vec![],
            name: Some("lookup".to_string()),
            tool_call_id: Some("c1".to_string()),
        }]
    );
}

#[test]
fn what_is_no_object_is_malformed() {
    for text in ["[]", "\"text\"", "7", "null", "true", r#"["a","hello"]"#] {
        assert_eq!(normalize(&parse(text), fresh()), Err(IngressError::MalformedIngress), "{}", text);
    }
}

#[test]
fn a_field_of_the_wrong_kind_is_malformed() {
    let bad = [
        r#"{"messages":{}}"#,
        r#"{"messages":null}"#,
        r#"{"messages":[7]}"#,
        r#"{"messages":[{"content":[{"text":"no role"}]}]}"#,
        r#"{"messages":[{"role":"moderator"}]}"#,
        r#"{"messages":[{"role":"User"}]}"#,
        r#"{"messages":[{"role":"user","content":"hi"}]}"#,
        r#"{"messages":[{"role":"user","content":[{"video":{"url":"u"}}]}]}"#,
        r#"{"messages":[{"role":"user","content":[{"image":{"href":"u"}}]}]}"#,
        r#"{"messages":[{"role":"user","content":[{"file":{"url":"u"}}]}]}"#,
        r#"{"messages":[{"role":"user","name":5}]}"#,
        r#"{"messages":[{"role":"user"}],"agent_id":5}"#,
        r#"{"messages":[{"role":"user"}],"session_id":[]}"#,
        r#"{"messages":[{"role":"user"}],"tool_choice":true}"#,
        r#"{"messages":[{"role":"user"}],"preferred_model":{}}"#,
        r#"{"messages":[{"role":"user"}],"request_id":"not-a-uuid"}"#,
        r#"{"messages":[{"role":"user"}],"request_id":12}"#,
        r#"{"messages":[{"role":"user"}],"tools":{}}"#,
        r#"{"messages":[{"role":"user"}],"tools":[{"description":"no name"}]}"#,
        r#"{"messages":[{"role":"user"}],"tools":[{"name":"t","strict":null}]}"#,
        r#"{"messages":[{"role":"user"}],"tools":[{"name":"t","strict":"yes"}]}"#,
        r#"{"messages":[{"role":"user"}],"constraints":[]}"#,
        r#"{"messages":[{"role":"user"}],"constraints":{"max_tokens":-1}}"#,
        r#"{"messages":[{"role":"user"}],"constraints":{"max_tokens":4294967296}}"#,
        r#"{"messages":[{"role":"user"}],"constraints":{"max_tokens":1.0}}"#,
        r#"{"messages":[{"role":"user"}],"constraints":{"top_k":"3"}}"#,
        r#"{"messages":[{"role":"user"}],"constraints":{"temperature":"hot"}}"#,
        r#"{"messages":[{"role":"user"}],"constraints":{"stop_sequences":["a",1]}}"#,
        r#"{"messages":[{"role":"user"}],"constraints":{"stop_sequences":null}}"#,
        r#"{"messages":[{"role":"user"}],"constraints":{"stream":null}}"#,
        r#"{"messages":[{"role":"user"}],"constraints":{"reasoning_effort":3}}"#,
        r#"{"messages":[{"role":"user"}],"metadata":null}"#,
        r#"{"messages":[{"role":"user"}],"metadata":[]}"#,
        r#"{"messages":[{"role":"user"}],"metadata":{"k":1}}"#,
    ];
    for text in bad {
        assert_eq!(normalize(&parse(text), fresh()), Err(IngressError::MalformedIngress), "{}", text);
    }
}

#[test]
fn text_that_is_no_json_is_malformed() {
    assert_eq!(normalize_text(b"{", fresh()), Err(IngressError::MalformedIngress));
    assert_eq!(normalize_text(b"", fresh()), Err(IngressError::MalformedIngress));
    assert_eq!(
        normalize_text(br#"{"agent_id":"a","payload":"p"} trailing"#, fresh()),
        Err(IngressError::MalformedIngress)
    );
    assert_eq!(normalize_text(&[0xff, 0xfe], fresh()), Err(IngressError::MalformedIngress));
}

#[test]
fn null_stands_for_a_missing_optional_field() {
    let raw = parse(
        r#"{"request_id":null,"agent_id":null,"session_id":null,"tool_choice":null,
            "preferred_model":null,"constraints":null,"response_format":null,
            "messages":[{"role":"user","name":null,"tool_call_id":null}],
            "tools":[{"name":"t","description":null,"parameters_json_schema":null}]}"#,
    );
    let req = normalize(&raw, fresh()).unwrap();
    assert_eq!(req.request_id, fresh());
    assert_eq!(req.agent_id, None);
    assert_eq!(req.session_id, None);
    assert_eq!(req.tool_choice, None);
    assert_eq!(req.preferred_model, None);
    assert_eq!(req.response_format, None);
    assert_eq!(req.constraints, GenerationConstraints::default());
    assert_eq!(req.messages[0].name, None);
    assert_eq!(req.messages[0].tool_call_id, None);
    assert_eq!(
        req.tools,
        vec![Tool {
            name: "t".to_string(),
            description: None,
            parameters_json_schema: None,
            strict: false,
        }]
    );
}

#[test]
fn unknown_fields_are_not_looked_at() {
    let raw = parse(
        r#"{"extra":{"deep":[1,2]},"messages":[{"role":"user","mood":"good",
            "content":[{"text":"hi","weight":3}]}],"constraints":{"seed":7}}"#,
    );
    let req = normalize(&raw, fresh()).unwrap();
    assert_eq!(req.messages[0].content, vec![text_part("hi")]);
    assert_eq!(req.constraints, GenerationConstraints::default());
}

#[test]
fn the_identifier_of_the_payload_is_kept() {
    let id = RequestId { value: 0x67e5_5044_10b1_426f_9247_bb68_0e5f_e0c8 };
    for spelled in [
        "67e55044-10b1-426f-9247-bb680e5fe0c8",
        "67E55044-10B1-426F-9247-BB680E5FE0C8",
        "67e5504410b1426f9247bb680e5fe0c8",
        "urn:uuid:67e55044-10b1-426f-9247-bb680e5fe0c8",
        "{67e55044-10b1-426f-9247-bb680e5fe0c8}",
    ] {
        let text = format!(r#"{{"request_id":"{}","messages":[{{"role":"user"}}]}}"#, spelled);
        let req = normalize(&parse(&text), fresh()).unwrap();
        assert_eq!(req.request_id, id, "{}", spelled);
    }
}

#[test]
fn a_missing_identifier_is_drawn_anew() {
    let raw = parse(r#"{"messages":[{"role":"user"}]}"#);
    let first = normalize_new(&raw).unwrap();
    let second = normalize_new(&raw).unwrap();
    assert_ne!(first.request_id, second.request_id);
    let mask = 0x0000_0000_0000_f000_c000_0000_0000_0000u128;
    let random = 0x0000_0000_0000_4000_8000_0000_0000_0000u128;
    assert_eq!(first.request_id.value & mask, random);
    assert_eq!(second.request_id.value & mask, random);
    assert_eq!(normalize_new(&parse("[]")), Err(IngressError::MalformedIngress));
    assert_eq!(normalize_new(&parse("{}")), Err(IngressError::ValidationFailed));
}

#[test]
fn the_generation_knobs_are_read() {
    let raw = parse(
        r#"{"messages":[{"role":"user"}],"constraints":{
            "max_tokens":256,"temperature":0.5,"top_p":1,"top_k":4294967295,
            "stop_sequences":["END","\n\n"],"presence_penalty":-2,
            "frequency_penalty":1e-3,"reasoning_effort":"high","stream":true}}"#,
    );
    let req = normalize(&raw, fresh()).unwrap();
    let c = &req.constraints;
    assert_eq!(c.max_tokens, Some(256));
    assert_eq!(c.top_k, Some(u32::MAX));
    assert_eq!(c.top_p, Some(JsonNumber::PosInt(1)));
    assert_eq!(c.presence_penalty, Some(JsonNumber::NegInt(-2)));
    match &c.temperature {
        Some(JsonNumber::Float(n)) => assert_eq!(n.as_f64(), Some(0.5)),
        other => panic!("expected a decimal number, got {:?}", other),
    }
    match &c.frequency_penalty {
        Some(JsonNumber::Float(n)) => assert_eq!(n.as_f64(), Some(0.001)),
        other => panic!("expected a decimal number, got {:?}", other),
    }
    assert_eq!(c.stop_sequences, vec!["END".to_string(), "\n\n".to_string()]);
    assert_eq!(c.reasoning_effort.as_deref(), Some("high"));
    assert!(c.stream);
}

#[test]
fn the_tools_are_read() {
    let raw = parse(
        r#"{"messages":[{"role":"user"}],"tool_choice":"auto","tools":[
            {"name":"search","description":"finds things","strict":true,
             "parameters_json_schema":{"type":"object","required":["q"]}},
            {"name":"clock"}]}"#,
    );
    let req = normalize(&raw, fresh()).unwrap();
    assert_eq!(req.tool_choice.as_deref(), Some("auto"));
    assert_eq!(req.tools.len(), 2);
    assert_eq!(req.tools[0].name, "search");
    assert_eq!(req.tools[0].description.as_deref(), Some("finds things"));
    assert!(req.tools[0].strict);
    let schema = req.tools[0].parameters_json_schema.as_ref().unwrap();
    assert_eq!(schema.field("type"), Some(&Json::String("object".to_string())));
    assert_eq!(
        schema.field("required"),
        Some(&Json::Array(vec![Json::String("q".to_string())]))
    );
    assert_eq!(
        req.tools[1],
        Tool {
            name: "clock".to_string(),
            description: None,
            parameters_json_schema: None,
            strict: false,
        }
    );
}

#[test]
fn of_two_fields_with_one_key_the_later_counts() {
    let raw = Json::Object(vec![
        ("agent_id".to_string(), Json::Number(JsonNumber::PosInt(1))),
        ("agent_id".to_string(), Json::String("a".to_string())),
        ("payload".to_string(), Json::String("first".to_string())),
        ("payload".to_string(), Json::String("second".to_string())),
    ]);
    let req = normalize(&raw, fresh()).unwrap();
    assert_eq!(req.agent_id.as_deref(), Some("a"));
    assert_eq!(req.messages[0].content, vec![text_part("second")]);
}

#[test]
fn metadata_with_a_key_given_twice_takes_the_later_value() {
    let raw = Json::Object(vec![
        (
            "messages".to_string(),
            Json::Array(vec![Json::Object(vec![(
                "role".to_string(),
                Json::String("user".to_string()),
            )])]),
        ),
        (
            "metadata".to_string(),
            Json::Object(vec![
                ("k".to_string(), Json::Number(JsonNumber::PosInt(1))),
                ("k".to_string(), Json::String("v".to_string())),
                ("other".to_string(), Json::String("o".to_string())),
            ]),
        ),
    ]);
    let req = normalize(&raw, fresh()).unwrap();
    assert_eq!(req.metadata.get("k").map(|s| s.as_str()), Some("v"));
    assert_eq!(req.metadata.get("other").map(|s| s.as_str()), Some("o"));
    let raw = Json::Object(vec![(
        "metadata".to_string(),
        Json::Object(vec![
            ("k".to_string(), Json::String("v".to_string())),
            ("k".to_string(), Json::Number(JsonNumber::PosInt(1))),
        ]),
    )]);
    assert_eq!(normalize(&raw, fresh()), Err(IngressError::MalformedIngress));
}

fn full_request() -> CanonicalAIRequest {
    let mut req = CanonicalAIRequest::with_id(RequestId {
        value: 0x67e5_5044_10b1_426f_9247_bb68_0e5f_e0c8,
    });
    req.agent_id = Some("agent".to_string());
    req.session_id = Some("session".to_string());
    req.messages = vec![
        Message {
            role: MessageRole::System,
            content: vec![text_part("be brief")],
            name: None,
            tool_call_id: None,
        },
        Message {
            role: MessageRole::User,
            content: vec![
                text_part("look at \"this\""),
                ContentPart::Image { url: "https://e/x.png".to_string() },
                ContentPart::Audio { url: "https://e/x.ogg".to_string() },
                ContentPart::File {
                    url: "https://e/x.pdf".to_string(),
                    mime_type: "application/pdf".to_string(),
                },
            ],
            name: Some("alice".to_string()),
            tool_call_id: None,
        },
        Message {
            role: MessageRole::Tool,
            content: vec![],
            name: None,
            tool_call_id: Some("call-1".to_string()),
        },
        Message {
            role: MessageRole::Assistant,
            content: vec![text_part("done")],
            name: None,
            tool_call_id: None,
        },
    ];
    req.tools = vec![Tool {
        name: "search".to_string(),
        description: Some("finds things".to_string()),
        parameters_json_schema: Some(Json::Object(vec![(
            "type".to_string(),
            Json::String("object".to_string()),
        )])),
        strict: true,
    }];
    req.tool_choice = Some("required".to_string());
    req.constraints = GenerationConstraints {
        max_tokens: Some(0),
        temperature: Some(JsonNumber::NegInt(-1)),
        top_p: None,
        top_k: Some(40),
        stop_sequences: vec!["STOP".to_string()],
        presence_penalty: Some(JsonNumber::PosInt(2)),
        frequency_penalty: None,
        reasoning_effort: Some("low".to_string()),
        stream: true,
    };
    req.preferred_model = Some("model-x".to_string());
    req.metadata.insert("adapter_id".to_string(), "ollama".to_string());
    req.metadata.insert("preferred_provider".to_string(), "openrouter".to_string());
    req.response_format = Some(Json::Array(vec![Json::Bool(false)]));
    req
}

#[test]
fn a_request_written_out_reads_back_as_itself() {
    let req = full_request();
    let back = normalize(&req.to_json(), fresh()).unwrap();
    assert_eq!(back.request_id, req.request_id);
    assert_eq!(back.agent_id, req.agent_id);
    assert_eq!(back.session_id, req.session_id);
    assert_eq!(back.messages, req.messages);
    assert_eq!(back.tools, req.tools);
    assert_eq!(back.tool_choice, req.tool_choice);
    assert_eq!(back.constraints, req.constraints);
    assert_eq!(back.preferred_model, req.preferred_model);
    assert_eq!(back.response_format, req.response_format);
    assert_eq!(back.metadata.get("adapter_id").map(|s| s.as_str()), Some("ollama"));
    assert_eq!(back.metadata.get("preferred_provider").map(|s| s.as_str()), Some("openrouter"));

    assert_eq!(back, req);

    let through_text = normalize_text(req.to_json_text().as_bytes(), fresh()).unwrap();
    assert_eq!(through_text, req);
    assert_eq!(through_text.request_id, req.request_id);
    assert_eq!(through_text.messages, req.messages);
    assert_eq!(through_text.tools, req.tools);
    assert_eq!(through_text.constraints, req.constraints);
    assert_eq!(through_text.response_format, req.response_format);
    assert_eq!(through_text.metadata.get("adapter_id").map(|s| s.as_str()), Some("ollama"));
}

#[test]
fn a_copy_of_a_request_equals_the_request() {
    let req = full_request();
    let copy = req.clone();
    assert_eq!(copy, req);
    assert_eq!(copy.messages[1].clone(), req.messages[1]);
    assert_eq!(copy.tools[0].clone(), req.tools[0]);
    assert_eq!(copy.constraints.clone(), req.constraints);
    assert_eq!(copy.to_json_text(), req.to_json_text());
}

#[test]
fn normalizing_again_changes_nothing() {
    let payloads = [
        r#"{"agent_id":"a","payload":"hello"}"#,
        r#"{"agent_id":"a","intent":"i","payload":{"json":[1,{"k":null}]}}"#,
        r#"{"messages":[{"role":"user","content":[{"text":"hi"},{"file":{"url":"u","mime_type":"m"}}]}],
            "metadata":{"preferred_provider":"x","tenant":"t"},
            "tools":[{"name":"t","parameters_json_schema":{"b":1,"a":2}}],
            "constraints":{"temperature":0.25,"max_tokens":7},
            "response_format":{"z":[],"y":"s"}}"#,
    ];
    for text in payloads {
        let first = normalize(&parse(text), fresh()).unwrap();
        let other = RequestId { value: 99 };
        assert_eq!(normalize(&first.to_json(), other).as_ref(), Ok(&first), "{}", text);
        assert_eq!(
            normalize_text(first.to_json_text().as_bytes(), other).as_ref(),
            Ok(&first),
            "{}",
            text
        );
    }
}

#[test]
fn the_wire_form_leaves_unset_fields_out() {
    let req = CanonicalAIRequest::chat_text_with_id(
        RequestId { value: 0x67e5_5044_10b1_426f_9247_bb68_0e5f_e0c8 },
        None,
        "hi".to_string(),
    );
    assert_eq!(
        req.to_json_text(),
        concat_wire(
            r#"{"constraints":{"stop_sequences":[],"stream":false},"#,
            r#""messages":[{"content":[{"text":"hi","type":"text"}],"role":"user"}],"#,
            r#""metadata":{},"request_id":"67e55044-10b1-426f-9247-bb680e5fe0c8","tools":[]}"#,
        )
    );
}

fn concat_wire(a: &str, b: &str, c: &str) -> String {
    format!("{}{}{}", a, b, c)
}

#[test]
fn a_null_schema_reads_back_as_no_schema() {
    let mut req = CanonicalAIRequest::chat_text_with_id(fresh(), None, "hi".to_string());
    req.response_format = Some(Json::Null);
    let back = normalize(&req.to_json(), fresh()).unwrap();
    assert_eq!(back.response_format, None);
}
