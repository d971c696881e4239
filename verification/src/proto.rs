//! The messages of the remote-procedure schema that adapters speak, and how
//! a canonical request is turned into one.
//!
//! The schema has no optional scalars. A string that is not set travels as
//! the empty string, a number that is not set as zero, and a JSON Schema as
//! its compact text. Everything else is carried over as it is.

use vstd::prelude::*;
use crate::canonical::{
    opt_number, opt_tree, part_views, CanonicalAIRequest, ConstraintsView, ContentPart,
    ContentPartView, GenerationConstraints, Message, MessageRole, MessageView, RequestView, Tool,
    ToolView,
};
use crate::json::{Json, JsonNumber, JsonTree, NumberView};
use crate::json_codec::compact_text;
use crate::metadata::Metadata;
use crate::request_id::uuid_text;
use crate::text::{opt_text, texts};

verus! {

/// A content part as the schema has it.
#[derive(Debug, PartialEq)]
pub enum ProtoContentPart {
    Text { text: String },
    Image { url: String },
    Audio { url: String },
    File { url: String, mime_type: String },
}

impl View for ProtoContentPart {
    type V = ContentPartView;

    open spec fn view(&self) -> ContentPartView {
        match self {
            ProtoContentPart::Text { text } => ContentPartView::Text { text: text@ },
            ProtoContentPart::Image { url } => ContentPartView::Image { url: url@ },
            ProtoContentPart::Audio { url } => ContentPartView::Audio { url: url@ },
            ProtoContentPart::File { url, mime_type } => ContentPartView::File {
                url: url@,
                mime_type: mime_type@,
            },
        }
    }
}

/// The models of a list of content parts of the schema, in order.
pub open spec fn proto_part_views(parts: Seq<ProtoContentPart>) -> Seq<ContentPartView> {
    Seq::new(parts.len(), |i: int| parts[i]@)
}

/// A message as the schema has it.
#[derive(Debug, PartialEq)]
pub struct ProtoMessage {
    /// 1 for system, 2 for user, 3 for assistant, 4 for tool.
    pub role: i32,
    pub content: Vec<ProtoContentPart>,
    pub name: String,
    pub tool_call_id: String,
}

/// The model of a message of the schema.
pub struct ProtoMessageView {
    pub role: i32,
    pub content: Seq<ContentPartView>,
    pub name: Seq<char>,
    pub tool_call_id: Seq<char>,
}

impl View for ProtoMessage {
    type V = ProtoMessageView;

    open spec fn view(&self) -> ProtoMessageView {
        ProtoMessageView {
            role: self.role,
            content: proto_part_views(self.content@),
            name: self.name@,
            tool_call_id: self.tool_call_id@,
        }
    }
}

/// The models of a list of messages of the schema, in order.
pub open spec fn proto_message_views(messages: Seq<ProtoMessage>) -> Seq<ProtoMessageView> {
    Seq::new(messages.len(), |i: int| messages[i]@)
}

/// A tool as the schema has it.
#[derive(Debug, PartialEq)]
pub struct ProtoTool {
    pub name: String,
    pub description: String,
    /// The schema of the parameters as JSON text.
    pub parameters_json_schema: String,
    pub strict: bool,
}

/// The model of a tool of the schema.
pub struct ProtoToolView {
    pub name: Seq<char>,
    pub description: Seq<char>,
    pub parameters_json_schema: Seq<char>,
    pub strict: bool,
}

impl View for ProtoTool {
    type V = ProtoToolView;

    open spec fn view(&self) -> ProtoToolView {
        ProtoToolView {
            name: self.name@,
            description: self.description@,
            parameters_json_schema: self.parameters_json_schema@,
            strict: self.strict,
        }
    }
}

/// The models of a list of tools of the schema, in order.
pub open spec fn proto_tool_views(tools: Seq<ProtoTool>) -> Seq<ProtoToolView> {
    Seq::new(tools.len(), |i: int| tools[i]@)
}

/// The generation knobs as the schema has them.
#[derive(Debug, PartialEq)]
pub struct ProtoGenerationConstraints {
    pub max_tokens: u32,
    pub temperature: JsonNumber,
    pub top_p: JsonNumber,
    pub top_k: u32,
    pub stop_sequences: Vec<String>,
    pub presence_penalty: JsonNumber,
    pub frequency_penalty: JsonNumber,
    pub reasoning_effort: String,
    pub stream: bool,
}

/// The model of the generation knobs of the schema.
pub struct ProtoConstraintsView {
    pub max_tokens: u32,
    pub temperature: NumberView,
    pub top_p: NumberView,
    pub top_k: u32,
    pub stop_sequences: Seq<Seq<char>>,
    pub presence_penalty: NumberView,
    pub frequency_penalty: NumberView,
    pub reasoning_effort: Seq<char>,
    pub stream: bool,
}

impl View for ProtoGenerationConstraints {
    type V = ProtoConstraintsView;

    open spec fn view(&self) -> ProtoConstraintsView {
        ProtoConstraintsView {
            max_tokens: self.max_tokens,
            temperature: self.temperature@,
            top_p: self.top_p@,
            top_k: self.top_k,
            stop_sequences: texts(self.stop_sequences@),
            presence_penalty: self.presence_penalty@,
            frequency_penalty: self.frequency_penalty@,
            reasoning_effort: self.reasoning_effort@,
            stream: self.stream,
        }
    }
}

/// A request as the schema has it.
#[derive(Debug, PartialEq)]
pub struct CanonicalAiRequest {
    pub request_id: String,
    pub agent_id: String,
    pub session_id: String,
    pub messages: Vec<ProtoMessage>,
    pub tools: Vec<ProtoTool>,
    pub tool_choice: String,
    pub constraints: Option<ProtoGenerationConstraints>,
    pub preferred_model: String,
    pub metadata: Metadata,
    /// The schema of a structured answer as JSON text.
    pub response_format_json_schema: String,
}

/// The model of a request of the schema.
pub struct ProtoRequestView {
    pub request_id: Seq<char>,
    pub agent_id: Seq<char>,
    pub session_id: Seq<char>,
    pub messages: Seq<ProtoMessageView>,
    pub tools: Seq<ProtoToolView>,
    pub tool_choice: Seq<char>,
    pub constraints: Option<ProtoConstraintsView>,
    pub preferred_model: Seq<char>,
    pub metadata: Map<Seq<char>, Seq<char>>,
    pub response_format_json_schema: Seq<char>,
}

impl View for CanonicalAiRequest {
    type V = ProtoRequestView;

    open spec fn view(&self) -> ProtoRequestView {
        ProtoRequestView {
            request_id: self.request_id@,
            agent_id: self.agent_id@,
            session_id: self.session_id@,
            messages: proto_message_views(self.messages@),
            tools: proto_tool_views(self.tools@),
            tool_choice: self.tool_choice@,
            constraints: match self.constraints {
                Some(c) => Some(c@),
                None => None,
            },
            preferred_model: self.preferred_model@,
            metadata: self.metadata@,
            response_format_json_schema: self.response_format_json_schema@,
        }
    }
}

/// The number that stands for a role in the schema.
pub open spec fn role_code(role: MessageRole) -> i32 {
    match role {
        MessageRole::System => 1,
        MessageRole::User => 2,
        MessageRole::Assistant => 3,
        MessageRole::Tool => 4,
    }
}

/// The text, or the empty string where there is none.
pub open spec fn text_or_empty(o: Option<Seq<char>>) -> Seq<char> {
    match o {
        Some(s) => s,
        None => Seq::empty(),
    }
}

/// The count, or zero where there is none.
pub open spec fn count_or_zero(o: Option<u32>) -> u32 {
    match o {
        Some(k) => k,
        None => 0,
    }
}

/// The number, or zero where there is none.
pub open spec fn number_or_zero(o: Option<NumberView>) -> NumberView {
    match o {
        Some(n) => n,
        None => NumberView::Int(0),
    }
}

/// The compact text of the document, or the empty string where there is
/// none.
pub open spec fn schema_text(o: Option<JsonTree>) -> Seq<char> {
    match o {
        Some(t) => compact_text(t),
        None => Seq::empty(),
    }
}

/// The message of the schema that stands for a message.
pub open spec fn proto_message(m: MessageView) -> ProtoMessageView {
    ProtoMessageView {
        role: role_code(m.role),
        content: m.content,
        name: text_or_empty(m.name),
        tool_call_id: text_or_empty(m.tool_call_id),
    }
}

/// The tool of the schema that stands for a tool.
pub open spec fn proto_tool(t: ToolView) -> ProtoToolView {
    ProtoToolView {
        name: t.name,
        description: text_or_empty(t.description),
        parameters_json_schema: schema_text(t.parameters_json_schema),
        strict: t.strict,
    }
}

/// The knobs of the schema that stand for the generation knobs.
pub open spec fn proto_constraints(c: ConstraintsView) -> ProtoConstraintsView {
    ProtoConstraintsView {
        max_tokens: count_or_zero(c.max_tokens),
        temperature: number_or_zero(c.temperature),
        top_p: number_or_zero(c.top_p),
        top_k: count_or_zero(c.top_k),
        stop_sequences: c.stop_sequences,
        presence_penalty: number_or_zero(c.presence_penalty),
        frequency_penalty: number_or_zero(c.frequency_penalty),
        reasoning_effort: text_or_empty(c.reasoning_effort),
        stream: c.stream,
    }
}

/// The request of the schema that stands for a canonical request: every
/// message and every tool one for one and in order, the identifier in its
/// hyphenated form, the metadata as it is.
pub open spec fn proto_request(r: RequestView) -> ProtoRequestView {
    ProtoRequestView {
        request_id: uuid_text(r.request_id.value),
        agent_id: text_or_empty(r.agent_id),
        session_id: text_or_empty(r.session_id),
        messages: Seq::new(r.messages.len(), |i: int| proto_message(r.messages[i])),
        tools: Seq::new(r.tools.len(), |i: int| proto_tool(r.tools[i])),
        tool_choice: text_or_empty(r.tool_choice),
        constraints: Some(proto_constraints(r.constraints)),
        preferred_model: text_or_empty(r.preferred_model),
        metadata: r.metadata,
        response_format_json_schema: schema_text(r.response_format),
    }
}

/// The string, or the empty string where there is none.
fn string_or_empty(o: Option<String>) -> (s: String)
    ensures
        s@ == text_or_empty(opt_text(o)),
{
    match o {
        Some(s) => s,
        None => String::new(),
    }
}

/// The number, or zero where there is none.
fn number_or_unset(o: Option<JsonNumber>) -> (n: JsonNumber)
    ensures
        n@ == number_or_zero(opt_number(o)),
{
    match o {
        Some(n) => n,
        None => JsonNumber::PosInt(0),
    }
}

/// The compact text of the document, or the empty string where there is
/// none.
fn schema_string(o: Option<Json>) -> (s: String)
    ensures
        s@ == schema_text(opt_tree(o)),
{
    match o {
        Some(t) => t.to_text(),
        None => String::new(),
    }
}

impl MessageRole {
    /// The number that stands for the role in the schema.
    pub fn code(&self) -> (c: i32)
        ensures
            c == role_code(*self),
    {
        match self {
            MessageRole::System => 1,
            MessageRole::User => 2,
            MessageRole::Assistant => 3,
            MessageRole::Tool => 4,
        }
    }
}

impl ContentPart {
    /// The part of the schema that stands for this part.
    pub fn into_proto(self) -> (p: ProtoContentPart)
        ensures
            p@ == self@,
    {
        match self {
            ContentPart::Text { text } => ProtoContentPart::Text { text },
            ContentPart::Image { url } => ProtoContentPart::Image { url },
            ContentPart::Audio { url } => ProtoContentPart::Audio { url },
            ContentPart::File { url, mime_type } => ProtoContentPart::File { url, mime_type },
        }
    }
}

impl Message {
    /// The message of the schema that stands for this message.
    pub fn into_proto(self) -> (m: ProtoMessage)
        ensures
            m@ == proto_message(self@),
    {
        let ghost written = self.content@;
        let role = self.role.code();
        let mut content: Vec<ProtoContentPart> = Vec::new();
        for part in iter: self.content
            invariant
                iter.seq() == written,
                content@.len() == iter.index(),
                forall|i: int| 0 <= i < content@.len() ==> (#[trigger] content@[i])@ == written[i]@,
        {
            content.push(part.into_proto());
        }
        assert(proto_part_views(content@) =~= part_views(written));
        ProtoMessage {
            role,
            content,
            name: string_or_empty(self.name),
            tool_call_id: string_or_empty(self.tool_call_id),
        }
    }
}

impl Tool {
    /// The tool of the schema that stands for this tool.
    pub fn into_proto(self) -> (t: ProtoTool)
        ensures
            t@ == proto_tool(self@),
    {
        ProtoTool {
            name: self.name,
            description: string_or_empty(self.description),
            parameters_json_schema: schema_string(self.parameters_json_schema),
            strict: self.strict,
        }
    }
}

impl GenerationConstraints {
    /// The knobs of the schema that stand for these knobs.
    pub fn into_proto(self) -> (c: ProtoGenerationConstraints)
        ensures
            c@ == proto_constraints(self@),
    {
        ProtoGenerationConstraints {
            max_tokens: match self.max_tokens {
                Some(k) => k,
                None => 0,
            },
            temperature: number_or_unset(self.temperature),
            top_p: number_or_unset(self.top_p),
            top_k: match self.top_k {
                Some(k) => k,
                None => 0,
            },
            stop_sequences: self.stop_sequences,
            presence_penalty: number_or_unset(self.presence_penalty),
            frequency_penalty: number_or_unset(self.frequency_penalty),
            reasoning_effort: string_or_empty(self.reasoning_effort),
            stream: self.stream,
        }
    }
}

/// Turns a canonical request into the request of the schema that stands for
/// it.
pub fn to_proto(req: CanonicalAIRequest) -> (out: CanonicalAiRequest)
    ensures
        out@ == proto_request(req@),
{
    let ghost before = req@;
    let request_id = req.request_id.to_text();
    let ghost written = req.messages@;
    let mut messages: Vec<ProtoMessage> = Vec::new();
    for message in iter: req.messages
        invariant
            iter.seq() == written,
            messages@.len() == iter.index(),
            forall|i: int|
                0 <= i < messages@.len() ==> (#[trigger] messages@[i])@ == proto_message(
                    written[i]@,
                ),
    {
        messages.push(message.into_proto());
    }
    let ghost offered = req.tools@;
    let mut tools: Vec<ProtoTool> = Vec::new();
    for tool in iter: req.tools
        invariant
            iter.seq() == offered,
            tools@.len() == iter.index(),
            forall|i: int| 0 <= i < tools@.len() ==> (#[trigger] tools@[i])@ == proto_tool(offered[i]@),
    {
        tools.push(tool.into_proto());
    }
    proof {
        assert(proto_message_views(messages@) =~= proto_request(before).messages);
        assert(proto_tool_views(tools@) =~= proto_request(before).tools);
    }
    CanonicalAiRequest {
        request_id,
        agent_id: string_or_empty(req.agent_id),
        session_id: string_or_empty(req.session_id),
        messages,
        tools,
        tool_choice: string_or_empty(req.tool_choice),
        constraints: Some(req.constraints.into_proto()),
        preferred_model: string_or_empty(req.preferred_model),
        metadata: req.metadata,
        response_format_json_schema: schema_string(req.response_format),
    }
}

} // verus!
