//! Shape detection: which of the accepted request shapes a JSON payload has,
//! and what it holds in that shape.
//!
//! The shapes overlap, so they are tried in a fixed order and the first that
//! fits wins: the oldest shape, then the older structured shape, then the
//! current one. Each reader comes as a spec function on the model of the
//! payload and an executable function that computes it.

use vstd::prelude::*;
use crate::canonical::{
    tool_views, ConstraintsView, ContentPart, ContentPartView, GenerationConstraints, MessageRole,
    Tool, ToolView,
};
use crate::decode::{
    flag_field, items_field, opt_any_field, opt_number_field, opt_text_field, opt_u32_field,
    read_flag_field, read_items_field, read_opt_number_field, read_opt_text_field,
    read_opt_u32_field, read_text_field, read_texts_field, text_field, texts_field,
};
use crate::json::{
    field_of, lemma_map_of_no_pairs, lemma_map_of_pairs_prepend, map_of_pairs, pairs, trees, Json,
    JsonTree,
};
use crate::metadata::Metadata;
use crate::protocols::rest::{
    message_input_views, part_input_views, CanonicalIngressRequest, CanonicalIngressView,
    FileOnly, LegacyPayload, LegacyPayloadView, LegacyV0Request, LegacyV0View, LegacyV1Request,
    LegacyV1View, MessageInputView, PartInputView, RestContentPartInput, RestIngressRequest,
    RestIngressView, RestMessageInput, UrlOnly,
};
use crate::request_id::{request_id_of, RequestId};
use crate::text::str_eq;

verus! {

/// The role that a document names.
pub open spec fn role_of(t: JsonTree) -> Option<MessageRole> {
    match t {
        JsonTree::String(s) => if s == "system"@ {
            Some(MessageRole::System)
        } else if s == "user"@ {
            Some(MessageRole::User)
        } else if s == "assistant"@ {
            Some(MessageRole::Assistant)
        } else if s == "tool"@ {
            Some(MessageRole::Tool)
        } else {
            None
        },
        _ => None,
    }
}

/// The role that a message names: the `role` field is required.
pub open spec fn role_field(t: JsonTree) -> Option<MessageRole> {
    match field_of(t, "role"@) {
        Some(r) => role_of(r),
        None => None,
    }
}

/// A content part in the canonical tagged form: the `type` field names the
/// kind, and the fields of that kind are strings.
pub open spec fn tagged_part_of(t: JsonTree) -> Option<ContentPartView> {
    match text_field(t, "type"@) {
        Some(tag) => if tag == "text"@ {
            match text_field(t, "text"@) {
                Some(text) => Some(ContentPartView::Text { text }),
                None => None,
            }
        } else if tag == "image"@ {
            match text_field(t, "url"@) {
                Some(url) => Some(ContentPartView::Image { url }),
                None => None,
            }
        } else if tag == "audio"@ {
            match text_field(t, "url"@) {
                Some(url) => Some(ContentPartView::Audio { url }),
                None => None,
            }
        } else if tag == "file"@ {
            match (text_field(t, "url"@), text_field(t, "mime_type"@)) {
                (Some(url), Some(mime_type)) => Some(ContentPartView::File { url, mime_type }),
                _ => None,
            }
        } else {
            None
        },
        None => None,
    }
}

/// The `url` of the object that stands under `key`.
pub open spec fn url_under(t: JsonTree, key: Seq<char>) -> Option<Seq<char>> {
    match field_of(t, key) {
        Some(inner) => text_field(inner, "url"@),
        None => None,
    }
}

/// The `url` and the `mime_type` of the object that stands under `file`.
pub open spec fn file_under(t: JsonTree) -> Option<(Seq<char>, Seq<char>)> {
    match field_of(t, "file"@) {
        Some(inner) => match (text_field(inner, "url"@), text_field(inner, "mime_type"@)) {
            (Some(url), Some(mime_type)) => Some((url, mime_type)),
            _ => None,
        },
        None => None,
    }
}

/// A content part as written. The forms are tried in this order: the
/// canonical tagged form, then the shorthand for text, image, audio and file.
pub open spec fn part_input_of(t: JsonTree) -> Option<PartInputView> {
    match tagged_part_of(t) {
        Some(p) => Some(PartInputView::Canonical(p)),
        None => match text_field(t, "text"@) {
            Some(text) => Some(PartInputView::Text { text }),
            None => match url_under(t, "image"@) {
                Some(url) => Some(PartInputView::Image { url }),
                None => match url_under(t, "audio"@) {
                    Some(url) => Some(PartInputView::Audio { url }),
                    None => match file_under(t) {
                        Some((url, mime_type)) => Some(PartInputView::File { url, mime_type }),
                        None => None,
                    },
                },
            },
        },
    }
}

/// Every item as a written content part, in order; fails where one item is
/// none.
pub open spec fn all_part_inputs(items: Seq<JsonTree>) -> Option<Seq<PartInputView>> {
    if forall|i: int| 0 <= i < items.len() ==> part_input_of(#[trigger] items[i]) is Some {
        Some(Seq::new(items.len(), |i: int| part_input_of(items[i])->0))
    } else {
        None
    }
}

/// The content of a message: no parts where the field is missing.
pub open spec fn content_field(t: JsonTree) -> Option<Seq<PartInputView>> {
    match items_field(t, "content"@) {
        Some(items) => all_part_inputs(items),
        None => None,
    }
}

/// A message as written.
pub open spec fn message_input_of(t: JsonTree) -> Option<MessageInputView> {
    match (
        role_field(t),
        content_field(t),
        opt_text_field(t, "name"@),
        opt_text_field(t, "tool_call_id"@),
    ) {
        (Some(role), Some(content), Some(name), Some(tool_call_id)) => Some(
            MessageInputView { role, content, name, tool_call_id },
        ),
        _ => None,
    }
}

/// Every item as a written message, in order; fails where one item is none.
pub open spec fn all_message_inputs(items: Seq<JsonTree>) -> Option<Seq<MessageInputView>> {
    if forall|i: int| 0 <= i < items.len() ==> message_input_of(#[trigger] items[i]) is Some {
        Some(Seq::new(items.len(), |i: int| message_input_of(items[i])->0))
    } else {
        None
    }
}

/// The messages of a request: none where the field is missing.
pub open spec fn messages_field(t: JsonTree) -> Option<Seq<MessageInputView>> {
    match items_field(t, "messages"@) {
        Some(items) => all_message_inputs(items),
        None => None,
    }
}

/// A tool: the `name` is required, the schema may be any document.
pub open spec fn tool_of(t: JsonTree) -> Option<ToolView> {
    match (text_field(t, "name"@), opt_text_field(t, "description"@), flag_field(t, "strict"@)) {
        (Some(name), Some(description), Some(strict)) => Some(
            ToolView {
                name,
                description,
                parameters_json_schema: opt_any_field(t, "parameters_json_schema"@),
                strict,
            },
        ),
        _ => None,
    }
}

/// Every item as a tool, in order; fails where one item is none.
pub open spec fn all_tools(items: Seq<JsonTree>) -> Option<Seq<ToolView>> {
    if forall|i: int| 0 <= i < items.len() ==> tool_of(#[trigger] items[i]) is Some {
        Some(Seq::new(items.len(), |i: int| tool_of(items[i])->0))
    } else {
        None
    }
}

/// The tools of a request: none where the field is missing.
pub open spec fn tools_field(t: JsonTree) -> Option<Seq<ToolView>> {
    match items_field(t, "tools"@) {
        Some(items) => all_tools(items),
        None => None,
    }
}

/// The generation knobs that an object holds.
pub open spec fn constraints_of(t: JsonTree) -> Option<ConstraintsView> {
    if !(t is Object) {
        None
    } else {
        match (
            opt_u32_field(t, "max_tokens"@),
            opt_number_field(t, "temperature"@),
            opt_number_field(t, "top_p"@),
            opt_u32_field(t, "top_k"@),
            texts_field(t, "stop_sequences"@),
            opt_number_field(t, "presence_penalty"@),
            opt_number_field(t, "frequency_penalty"@),
            opt_text_field(t, "reasoning_effort"@),
            flag_field(t, "stream"@),
        ) {
            (
                Some(max_tokens),
                Some(temperature),
                Some(top_p),
                Some(top_k),
                Some(stop_sequences),
                Some(presence_penalty),
                Some(frequency_penalty),
                Some(reasoning_effort),
                Some(stream),
            ) => Some(
                ConstraintsView {
                    max_tokens,
                    temperature,
                    top_p,
                    top_k,
                    stop_sequences,
                    presence_penalty,
                    frequency_penalty,
                    reasoning_effort,
                    stream,
                },
            ),
            _ => None,
        }
    }
}

/// The generation knobs of a request; `Some(None)` where the field is
/// missing or null.
pub open spec fn constraints_field(t: JsonTree) -> Option<Option<ConstraintsView>> {
    match field_of(t, "constraints"@) {
        None => Some(None),
        Some(JsonTree::Null) => Some(None),
        Some(c) => match constraints_of(c) {
            Some(v) => Some(Some(v)),
            None => None,
        },
    }
}

/// The texts that a map holds, where every value is a string.
pub open spec fn string_values(m: Map<Seq<char>, JsonTree>) -> Map<Seq<char>, Seq<char>> {
    Map::new(|k: Seq<char>| m.contains_key(k), |k: Seq<char>| m[k]->String_0)
}

/// The mapping that an object with string values denotes.
pub open spec fn metadata_of(t: JsonTree) -> Option<Map<Seq<char>, Seq<char>>> {
    match t {
        JsonTree::Object(m) => if forall|k: Seq<char>| m.contains_key(k) ==> (#[trigger] m[k]) is String {
            Some(string_values(m))
        } else {
            None
        },
        _ => None,
    }
}

/// The metadata of a request: empty where the field is missing.
pub open spec fn metadata_field(t: JsonTree) -> Option<Map<Seq<char>, Seq<char>>> {
    match field_of(t, "metadata"@) {
        None => Some(Map::empty()),
        Some(m) => metadata_of(m),
    }
}

/// The identifier of a request; `Some(None)` where the field is missing or
/// null.
pub open spec fn request_id_field(t: JsonTree) -> Option<Option<RequestId>> {
    match field_of(t, "request_id"@) {
        None => Some(None),
        Some(JsonTree::Null) => Some(None),
        Some(JsonTree::String(s)) => match request_id_of(s) {
            Some(id) => Some(Some(id)),
            None => None,
        },
        _ => None,
    }
}

/// A request in the current shape: an object in which every known field that
/// is present has the right kind.
pub open spec fn canonical_ingress_of(t: JsonTree) -> Option<CanonicalIngressView> {
    if !(t is Object) {
        None
    } else {
        match (
            request_id_field(t),
            opt_text_field(t, "agent_id"@),
            opt_text_field(t, "session_id"@),
            messages_field(t),
            tools_field(t),
            opt_text_field(t, "tool_choice"@),
            constraints_field(t),
            opt_text_field(t, "preferred_model"@),
            metadata_field(t),
        ) {
            (
                Some(request_id),
                Some(agent_id),
                Some(session_id),
                Some(messages),
                Some(tools),
                Some(tool_choice),
                Some(constraints),
                Some(preferred_model),
                Some(metadata),
            ) => Some(
                CanonicalIngressView {
                    request_id,
                    agent_id,
                    session_id,
                    messages,
                    tools,
                    tool_choice,
                    constraints,
                    preferred_model,
                    metadata,
                    response_format: opt_any_field(t, "response_format"@),
                },
            ),
            _ => None,
        }
    }
}

/// A request in the oldest shape: `agent_id` and `payload` are strings.
pub open spec fn legacy_v0_of(t: JsonTree) -> Option<LegacyV0View> {
    match (text_field(t, "agent_id"@), text_field(t, "payload"@)) {
        (Some(agent_id), Some(payload)) => Some(LegacyV0View { agent_id, payload }),
        _ => None,
    }
}

/// A structured legacy payload: a `text` string, or else a `json` document.
pub open spec fn legacy_payload_of(t: JsonTree) -> Option<LegacyPayloadView> {
    match text_field(t, "text"@) {
        Some(text) => Some(LegacyPayloadView::Text { text }),
        None => match field_of(t, "json"@) {
            Some(json) => Some(LegacyPayloadView::Json { json }),
            None => None,
        },
    }
}

/// The structured legacy payload of a request: the field is required.
pub open spec fn legacy_payload_field(t: JsonTree) -> Option<LegacyPayloadView> {
    match field_of(t, "payload"@) {
        Some(p) => legacy_payload_of(p),
        None => None,
    }
}

/// A request in the older structured shape: `agent_id` and `intent` are
/// strings and `payload` is a structured payload.
pub open spec fn legacy_v1_of(t: JsonTree) -> Option<LegacyV1View> {
    match (text_field(t, "agent_id"@), text_field(t, "intent"@), legacy_payload_field(t)) {
        (Some(agent_id), Some(intent), Some(payload)) => Some(
            LegacyV1View { agent_id, intent, payload },
        ),
        _ => None,
    }
}

/// The accepted request that a payload holds. The shapes are tried in this
/// order: oldest, older structured, current.
pub open spec fn ingress_of(t: JsonTree) -> Option<RestIngressView> {
    match legacy_v0_of(t) {
        Some(v) => Some(RestIngressView::V0(v)),
        None => match legacy_v1_of(t) {
            Some(v) => Some(RestIngressView::V1(v)),
            None => match canonical_ingress_of(t) {
                Some(v) => Some(RestIngressView::V2(v)),
                None => None,
            },
        },
    }
}

/// Reads the role that a document names.
pub fn read_role(t: &Json) -> (r: Option<MessageRole>)
    ensures
        r == role_of(t@),
{
    match t {
        Json::String(s) => {
            let name = s.as_str();
            if str_eq(name, "system") {
                Some(MessageRole::System)
            } else if str_eq(name, "user") {
                Some(MessageRole::User)
            } else if str_eq(name, "assistant") {
                Some(MessageRole::Assistant)
            } else if str_eq(name, "tool") {
                Some(MessageRole::Tool)
            } else {
                None
            }
        },
        _ => None,
    }
}

/// Reads a content part in the canonical tagged form.
pub fn read_tagged_part(t: &Json) -> (r: Option<ContentPart>)
    ensures
        match r {
            Some(p) => tagged_part_of(t@) == Some(p@),
            None => tagged_part_of(t@) is None,
        },
{
    match read_text_field(t, "type") {
        Some(tag) => {
            let tag = tag.as_str();
            if str_eq(tag, "text") {
                match read_text_field(t, "text") {
                    Some(text) => Some(ContentPart::Text { text }),
                    None => None,
                }
            } else if str_eq(tag, "image") {
                match read_text_field(t, "url") {
                    Some(url) => Some(ContentPart::Image { url }),
                    None => None,
                }
            } else if str_eq(tag, "audio") {
                match read_text_field(t, "url") {
                    Some(url) => Some(ContentPart::Audio { url }),
                    None => None,
                }
            } else if str_eq(tag, "file") {
                match (read_text_field(t, "url"), read_text_field(t, "mime_type")) {
                    (Some(url), Some(mime_type)) => Some(ContentPart::File { url, mime_type }),
                    _ => None,
                }
            } else {
                None
            }
        },
        None => None,
    }
}

/// Reads the `url` of the object that stands under `key`.
fn read_url_under(t: &Json, key: &str) -> (r: Option<UrlOnly>)
    ensures
        match r {
            Some(u) => url_under(t@, key@) == Some(u.url@),
            None => url_under(t@, key@) is None,
        },
{
    match t.field(key) {
        Some(inner) => match read_text_field(inner, "url") {
            Some(url) => Some(UrlOnly { url }),
            None => None,
        },
        None => None,
    }
}

/// Reads the object that stands under `file`.
fn read_file_under(t: &Json) -> (r: Option<FileOnly>)
    ensures
        match r {
            Some(f) => file_under(t@) == Some((f.url@, f.mime_type@)),
            None => file_under(t@) is None,
        },
{
    match t.field("file") {
        Some(inner) => match (read_text_field(inner, "url"), read_text_field(inner, "mime_type")) {
            (Some(url), Some(mime_type)) => Some(FileOnly { url, mime_type }),
            _ => None,
        },
        None => None,
    }
}

/// Reads a content part as written.
pub fn read_part_input(t: &Json) -> (r: Option<RestContentPartInput>)
    ensures
        match r {
            Some(p) => part_input_of(t@) == Some(p@),
            None => part_input_of(t@) is None,
        },
{
    if let Some(p) = read_tagged_part(t) {
        return Some(RestContentPartInput::Canonical(p));
    }
    if let Some(text) = read_text_field(t, "text") {
        return Some(RestContentPartInput::Text { text });
    }
    if let Some(image) = read_url_under(t, "image") {
        return Some(RestContentPartInput::Image { image });
    }
    if let Some(audio) = read_url_under(t, "audio") {
        return Some(RestContentPartInput::Audio { audio });
    }
    if let Some(file) = read_file_under(t) {
        return Some(RestContentPartInput::File { file });
    }
    None
}

/// Reads the content of a message.
pub fn read_content_field(t: &Json) -> (r: Option<Vec<RestContentPartInput>>)
    ensures
        match r {
            Some(parts) => content_field(t@) == Some(part_input_views(parts@)),
            None => content_field(t@) is None,
        },
{
    match read_items_field(t, "content") {
        None => None,
        Some(items) => {
            let ghost all = trees(items@);
            let mut out: Vec<RestContentPartInput> = Vec::new();
            let mut i: usize = 0;
            while i < items.len()
                invariant
                    i <= items.len(),
                    out@.len() == i,
                    all == trees(items@),
                    items_field(t@, "content"@) == Some(all),
                    forall|k: int|
                        0 <= k < i ==> part_input_of(all[k]) == Some((#[trigger] out@[k])@),
                decreases items.len() - i,
            {
                match read_part_input(&items[i]) {
                    Some(p) => {
                        out.push(p);
                    },
                    None => {
                        assert(part_input_of(all[i as int]) is None);
                        return None;
                    },
                }
                i += 1;
            }
            assert forall|k: int| 0 <= k < all.len() implies part_input_of(
                #[trigger] all[k],
            ) is Some by {
                assert(part_input_of(all[k]) == Some(out@[k]@));
            }
            assert(part_input_views(out@) =~= all_part_inputs(all)->0);
            Some(out)
        },
    }
}

/// Reads a message as written.
pub fn read_message_input(t: &Json) -> (r: Option<RestMessageInput>)
    ensures
        match r {
            Some(m) => message_input_of(t@) == Some(m@),
            None => message_input_of(t@) is None,
        },
{
    let role = match t.field("role") {
        Some(r) => read_role(r),
        None => None,
    };
    match (
        role,
        read_content_field(t),
        read_opt_text_field(t, "name"),
        read_opt_text_field(t, "tool_call_id"),
    ) {
        (Some(role), Some(content), Some(name), Some(tool_call_id)) => Some(
            RestMessageInput { role, content, name, tool_call_id },
        ),
        _ => None,
    }
}

/// Reads the messages of a request.
pub fn read_messages_field(t: &Json) -> (r: Option<Vec<RestMessageInput>>)
    ensures
        match r {
            Some(messages) => messages_field(t@) == Some(message_input_views(messages@)),
            None => messages_field(t@) is None,
        },
{
    match read_items_field(t, "messages") {
        None => None,
        Some(items) => {
            let ghost all = trees(items@);
            let mut out: Vec<RestMessageInput> = Vec::new();
            let mut i: usize = 0;
            while i < items.len()
                invariant
                    i <= items.len(),
                    out@.len() == i,
                    all == trees(items@),
                    items_field(t@, "messages"@) == Some(all),
                    forall|k: int|
                        0 <= k < i ==> message_input_of(all[k]) == Some((#[trigger] out@[k])@),
                decreases items.len() - i,
            {
                match read_message_input(&items[i]) {
                    Some(m) => {
                        out.push(m);
                    },
                    None => {
                        assert(message_input_of(all[i as int]) is None);
                        return None;
                    },
                }
                i += 1;
            }
            assert forall|k: int| 0 <= k < all.len() implies message_input_of(
                #[trigger] all[k],
            ) is Some by {
                assert(message_input_of(all[k]) == Some(out@[k]@));
            }
            assert(message_input_views(out@) =~= all_message_inputs(all)->0);
            Some(out)
        },
    }
}

/// Reads a tool.
pub fn read_tool(t: &Json) -> (r: Option<Tool>)
    ensures
        match r {
            Some(tool) => tool_of(t@) == Some(tool@),
            None => tool_of(t@) is None,
        },
{
    match (
        read_text_field(t, "name"),
        read_opt_text_field(t, "description"),
        read_flag_field(t, "strict"),
    ) {
        (Some(name), Some(description), Some(strict)) => {
            let parameters_json_schema = match t.field("parameters_json_schema") {
                None => None,
                Some(Json::Null) => None,
                Some(v) => Some(v.clone()),
            };
            Some(Tool { name, description, parameters_json_schema, strict })
        },
        _ => None,
    }
}

/// Reads the tools of a request.
pub fn read_tools_field(t: &Json) -> (r: Option<Vec<Tool>>)
    ensures
        match r {
            Some(tools) => tools_field(t@) == Some(tool_views(tools@)),
            None => tools_field(t@) is None,
        },
{
    match read_items_field(t, "tools") {
        None => None,
        Some(items) => {
            let ghost all = trees(items@);
            let mut out: Vec<Tool> = Vec::new();
            let mut i: usize = 0;
            while i < items.len()
                invariant
                    i <= items.len(),
                    out@.len() == i,
                    all == trees(items@),
                    items_field(t@, "tools"@) == Some(all),
                    forall|k: int| 0 <= k < i ==> tool_of(all[k]) == Some((#[trigger] out@[k])@),
                decreases items.len() - i,
            {
                match read_tool(&items[i]) {
                    Some(tool) => {
                        out.push(tool);
                    },
                    None => {
                        assert(tool_of(all[i as int]) is None);
                        return None;
                    },
                }
                i += 1;
            }
            assert forall|k: int| 0 <= k < all.len() implies tool_of(#[trigger] all[k]) is Some by {
                assert(tool_of(all[k]) == Some(out@[k]@));
            }
            assert(tool_views(out@) =~= all_tools(all)->0);
            Some(out)
        },
    }
}

/// Reads the generation knobs that an object holds.
pub fn read_constraints(t: &Json) -> (r: Option<GenerationConstraints>)
    ensures
        match r {
            Some(c) => constraints_of(t@) == Some(c@),
            None => constraints_of(t@) is None,
        },
{
    match t {
        Json::Object(_) => {},
        _ => {
            return None;
        },
    }
    match (
        read_opt_u32_field(t, "max_tokens"),
        read_opt_number_field(t, "temperature"),
        read_opt_number_field(t, "top_p"),
        read_opt_u32_field(t, "top_k"),
        read_texts_field(t, "stop_sequences"),
        read_opt_number_field(t, "presence_penalty"),
        read_opt_number_field(t, "frequency_penalty"),
        read_opt_text_field(t, "reasoning_effort"),
        read_flag_field(t, "stream"),
    ) {
        (
            Some(max_tokens),
            Some(temperature),
            Some(top_p),
            Some(top_k),
            Some(stop_sequences),
            Some(presence_penalty),
            Some(frequency_penalty),
            Some(reasoning_effort),
            Some(stream),
        ) => Some(
            GenerationConstraints {
                max_tokens,
                temperature,
                top_p,
                top_k,
                stop_sequences,
                presence_penalty,
                frequency_penalty,
                reasoning_effort,
                stream,
            },
        ),
        _ => None,
    }
}

/// Reads the generation knobs of a request.
pub fn read_constraints_field(t: &Json) -> (r: Option<Option<GenerationConstraints>>)
    ensures
        match r {
            Some(Some(c)) => constraints_field(t@) == Some(Some(c@)),
            Some(None) => constraints_field(t@) == Some(None::<ConstraintsView>),
            None => constraints_field(t@) is None,
        },
{
    match t.field("constraints") {
        None => Some(None),
        Some(Json::Null) => Some(None),
        Some(c) => match read_constraints(c) {
            Some(v) => Some(Some(v)),
            None => None,
        },
    }
}

/// Reads the mapping that an object with string values denotes.
pub fn read_metadata(t: &Json) -> (r: Option<Metadata>)
    ensures
        match r {
            Some(m) => metadata_of(t@) == Some(m@),
            None => metadata_of(t@) is None,
        },
{
    match t {
        Json::Object(fields) => {
            let ghost ps = pairs(fields@);
            let mut out = Metadata::new();
            let mut i: usize = fields.len();
            proof {
                lemma_map_of_no_pairs::<JsonTree>();
                assert(ps.skip(i as int) =~= Seq::empty());
                assert(out@ =~= string_values(map_of_pairs(ps.skip(i as int))));
            }
            while i > 0
                invariant
                    i <= fields.len(),
                    ps == pairs(fields@),
                    t@ == JsonTree::Object(map_of_pairs(ps)),
                    out@ == string_values(map_of_pairs(ps.skip(i as int))),
                    agrees(map_of_pairs(ps.skip(i as int)), map_of_pairs(ps)),
                decreases i,
            {
                i -= 1;
                let ghost whole = map_of_pairs(ps);
                let ghost later = map_of_pairs(ps.skip(i + 1));
                let ghost now = map_of_pairs(ps.skip(i as int));
                let ghost key = ps[i as int].0;
                proof {
                    lemma_map_of_pairs_prepend(ps.skip(i + 1), key, ps[i as int].1);
                    assert(seq![(key, ps[i as int].1)] + ps.skip(i + 1) =~= ps.skip(i as int));
                    assert(now == if later.contains_key(key) {
                        later
                    } else {
                        later.insert(key, ps[i as int].1)
                    });
                }
                if !out.contains_key(fields[i].0.as_str()) {
                    proof {
                        lemma_kept_in_whole(ps, i as int);
                        assert(whole.contains_key(key) && whole[key] == ps[i as int].1);
                    }
                    match &fields[i].1 {
                        Json::String(s) => {
                            out.insert(fields[i].0.clone(), s.clone());
                            proof {
                                assert(whole[key] is String);
                                assert(out@ =~= string_values(now));
                                assert forall|k: Seq<char>| now.contains_key(k) implies (
                                #[trigger] whole.contains_key(k)) && whole[k] == now[k]
                                    && whole[k] is String by {
                                    if k != key {
                                        assert(later.contains_key(k));
                                    }
                                }
                            }
                        },
                        _ => {
                            assert(!(whole[key] is String));
                            return None;
                        },
                    }
                }
            }
            proof {
                assert(ps.skip(0) =~= ps);
            }
            Some(out)
        },
        _ => None,
    }
}

/// Every value of `part` is a string, and `whole` holds it under the same key.
spec fn agrees(part: Map<Seq<char>, JsonTree>, whole: Map<Seq<char>, JsonTree>) -> bool {
    forall|k: Seq<char>|
        part.contains_key(k) ==> (#[trigger] whole.contains_key(k)) && whole[k] == part[k]
            && whole[k] is String
}

/// A pair whose key does not come again later is the one that the map holds
/// under that key.
proof fn lemma_kept_in_whole<V>(ps: Seq<(Seq<char>, V)>, i: int)
    requires
        0 <= i < ps.len(),
        !map_of_pairs(ps.skip(i + 1)).contains_key(ps[i].0),
    ensures
        map_of_pairs(ps).contains_key(ps[i].0),
        map_of_pairs(ps)[ps[i].0] == ps[i].1,
{
    let key = ps[i].0;
    crate::json::lemma_last_index(ps, key);
    crate::json::lemma_last_index(ps.skip(i + 1), key);
    let at = crate::json::last_index(ps, key);
    if at > i {
        lemma_found_in_suffix(ps, i + 1, at);
    }
}

/// A key that occurs at or after a place occurs in the map of what stands
/// from that place on.
proof fn lemma_found_in_suffix<V>(ps: Seq<(Seq<char>, V)>, from: int, at: int)
    requires
        0 <= from <= at < ps.len(),
    ensures
        map_of_pairs(ps.skip(from)).contains_key(ps[at].0),
{
    let suffix = ps.skip(from);
    crate::json::lemma_last_index(suffix, ps[at].0);
    assert(suffix[at - from] == ps[at]);
}

/// Reads the metadata of a request.
pub fn read_metadata_field(t: &Json) -> (r: Option<Metadata>)
    ensures
        match r {
            Some(m) => metadata_field(t@) == Some(m@),
            None => metadata_field(t@) is None,
        },
{
    match t.field("metadata") {
        None => Some(Metadata::new()),
        Some(m) => read_metadata(m),
    }
}

/// Reads the identifier of a request.
pub fn read_request_id_field(t: &Json) -> (r: Option<Option<RequestId>>)
    ensures
        r == request_id_field(t@),
{
    match t.field("request_id") {
        None => Some(None),
        Some(Json::Null) => Some(None),
        Some(Json::String(s)) => match RequestId::parse(s.as_str()) {
            Some(id) => Some(Some(id)),
            None => None,
        },
        _ => None,
    }
}

impl CanonicalIngressRequest {
    /// Reads a request in the current shape.
    pub fn from_json(t: &Json) -> (r: Option<CanonicalIngressRequest>)
        ensures
            match r {
                Some(v) => canonical_ingress_of(t@) == Some(v@),
                None => canonical_ingress_of(t@) is None,
            },
    {
        match t {
            Json::Object(_) => {},
            _ => {
                return None;
            },
        }
        match (
            read_request_id_field(t),
            read_opt_text_field(t, "agent_id"),
            read_opt_text_field(t, "session_id"),
            read_messages_field(t),
            read_tools_field(t),
            read_opt_text_field(t, "tool_choice"),
            read_constraints_field(t),
            read_opt_text_field(t, "preferred_model"),
            read_metadata_field(t),
        ) {
            (
                Some(request_id),
                Some(agent_id),
                Some(session_id),
                Some(messages),
                Some(tools),
                Some(tool_choice),
                Some(constraints),
                Some(preferred_model),
                Some(metadata),
            ) => {
                let response_format = match t.field("response_format") {
                    None => None,
                    Some(Json::Null) => None,
                    Some(v) => Some(v.clone()),
                };
                Some(
                    CanonicalIngressRequest {
                        request_id,
                        agent_id,
                        session_id,
                        messages,
                        tools,
                        tool_choice,
                        constraints,
                        preferred_model,
                        metadata,
                        response_format,
                    },
                )
            },
            _ => None,
        }
    }
}

impl LegacyV0Request {
    /// Reads a request in the oldest shape.
    pub fn from_json(t: &Json) -> (r: Option<LegacyV0Request>)
        ensures
            match r {
                Some(v) => legacy_v0_of(t@) == Some(v@),
                None => legacy_v0_of(t@) is None,
            },
    {
        match (read_text_field(t, "agent_id"), read_text_field(t, "payload")) {
            (Some(agent_id), Some(payload)) => Some(LegacyV0Request { agent_id, payload }),
            _ => None,
        }
    }
}

impl LegacyPayload {
    /// Reads a structured legacy payload.
    pub fn from_json(t: &Json) -> (r: Option<LegacyPayload>)
        ensures
            match r {
                Some(p) => legacy_payload_of(t@) == Some(p@),
                None => legacy_payload_of(t@) is None,
            },
    {
        match read_text_field(t, "text") {
            Some(text) => Some(LegacyPayload::Text { text }),
            None => match t.field("json") {
                Some(json) => Some(LegacyPayload::Json { json: json.clone() }),
                None => None,
            },
        }
    }
}

impl LegacyV1Request {
    /// Reads a request in the older structured shape.
    pub fn from_json(t: &Json) -> (r: Option<LegacyV1Request>)
        ensures
            match r {
                Some(v) => legacy_v1_of(t@) == Some(v@),
                None => legacy_v1_of(t@) is None,
            },
    {
        let payload = match t.field("payload") {
            Some(p) => LegacyPayload::from_json(p),
            None => None,
        };
        match (read_text_field(t, "agent_id"), read_text_field(t, "intent"), payload) {
            (Some(agent_id), Some(intent), Some(payload)) => Some(
                LegacyV1Request { agent_id, intent, payload },
            ),
            _ => None,
        }
    }
}

impl RestIngressRequest {
    /// Reads the accepted request that a payload holds: the first of the
    /// shapes that fits, or `None` where none does.
    pub fn from_json(t: &Json) -> (r: Option<RestIngressRequest>)
        ensures
            match r {
                Some(v) => ingress_of(t@) == Some(v@),
                None => ingress_of(t@) is None,
            },
    {
        if let Some(v) = LegacyV0Request::from_json(t) {
            return Some(RestIngressRequest::V0(v));
        }
        if let Some(v) = LegacyV1Request::from_json(t) {
            return Some(RestIngressRequest::V1(v));
        }
        if let Some(v) = CanonicalIngressRequest::from_json(t) {
            return Some(RestIngressRequest::V2(v));
        }
        None
    }
}

} // verus!
