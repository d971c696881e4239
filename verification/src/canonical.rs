//! The canonical request: the one shape into which every accepted ingress
//! format is lowered before routing.

use vstd::prelude::*;
use crate::json::{Json, JsonNumber, JsonTree, NumberView};
use crate::metadata::Metadata;
use crate::request_id::RequestId;
use crate::text::{copy_opt_text, copy_texts, opt_text, texts};

verus! {

/// Who speaks in a message.
#[derive(Clone, Copy, Debug, PartialEq, Eq, Structural)]
pub enum MessageRole {
    System,
    User,
    Assistant,
    Tool,
}

/// One part of a message's content.
#[derive(Debug, PartialEq)]
pub enum ContentPart {
    Text { text: String },
    Image { url: String },
    Audio { url: String },
    File { url: String, mime_type: String },
}

/// The model of a content part.
pub enum ContentPartView {
    Text { text: Seq<char> },
    Image { url: Seq<char> },
    Audio { url: Seq<char> },
    File { url: Seq<char>, mime_type: Seq<char> },
}

impl View for ContentPart {
    type V = ContentPartView;

    open spec fn view(&self) -> ContentPartView {
        match self {
            ContentPart::Text { text } => ContentPartView::Text { text: text@ },
            ContentPart::Image { url } => ContentPartView::Image { url: url@ },
            ContentPart::Audio { url } => ContentPartView::Audio { url: url@ },
            ContentPart::File { url, mime_type } => ContentPartView::File {
                url: url@,
                mime_type: mime_type@,
            },
        }
    }
}

impl Clone for ContentPart {
    fn clone(&self) -> (r: Self)
        ensures
            r@ == self@,
    {
        match self {
            ContentPart::Text { text } => ContentPart::Text { text: text.clone() },
            ContentPart::Image { url } => ContentPart::Image { url: url.clone() },
            ContentPart::Audio { url } => ContentPart::Audio { url: url.clone() },
            ContentPart::File { url, mime_type } => ContentPart::File {
                url: url.clone(),
                mime_type: mime_type.clone(),
            },
        }
    }
}

/// The models of a list of content parts, in order.
pub open spec fn part_views(parts: Seq<ContentPart>) -> Seq<ContentPartView> {
    Seq::new(parts.len(), |i: int| parts[i]@)
}

/// One turn of the conversation.
#[derive(Debug, PartialEq)]
pub struct Message {
    pub role: MessageRole,
    pub content: Vec<ContentPart>,
    /// The name of a tool or function, where one applies.
    pub name: Option<String>,
    /// Ties a tool-role message to the tool call that it answers.
    pub tool_call_id: Option<String>,
}

/// The model of a message.
pub struct MessageView {
    pub role: MessageRole,
    pub content: Seq<ContentPartView>,
    pub name: Option<Seq<char>>,
    pub tool_call_id: Option<Seq<char>>,
}

impl View for Message {
    type V = MessageView;

    open spec fn view(&self) -> MessageView {
        MessageView {
            role: self.role,
            content: part_views(self.content@),
            name: opt_text(self.name),
            tool_call_id: opt_text(self.tool_call_id),
        }
    }
}

/// The models of a list of messages, in order.
pub open spec fn message_views(messages: Seq<Message>) -> Seq<MessageView> {
    Seq::new(messages.len(), |i: int| messages[i]@)
}

/// A tool that the model may call.
#[derive(Debug, PartialEq)]
pub struct Tool {
    pub name: String,
    pub description: Option<String>,
    /// The JSON Schema of the tool's parameters.
    pub parameters_json_schema: Option<Json>,
    pub strict: bool,
}

/// The model of a tool.
pub struct ToolView {
    pub name: Seq<char>,
    pub description: Option<Seq<char>>,
    pub parameters_json_schema: Option<JsonTree>,
    pub strict: bool,
}

/// The model of an optional document.
pub open spec fn opt_tree(o: Option<Json>) -> Option<JsonTree> {
    match o {
        Some(j) => Some(j@),
        None => None,
    }
}

/// The model of an optional number.
pub open spec fn opt_number(o: Option<JsonNumber>) -> Option<NumberView> {
    match o {
        Some(n) => Some(n@),
        None => None,
    }
}

impl View for Tool {
    type V = ToolView;

    open spec fn view(&self) -> ToolView {
        ToolView {
            name: self.name@,
            description: opt_text(self.description),
            parameters_json_schema: opt_tree(self.parameters_json_schema),
            strict: self.strict,
        }
    }
}

/// The models of a list of tools, in order.
pub open spec fn tool_views(tools: Seq<Tool>) -> Seq<ToolView> {
    Seq::new(tools.len(), |i: int| tools[i]@)
}

/// The knobs of generation. An absent knob leaves the choice to the backend.
///
/// The decimal knobs are carried as the JSON numbers they were given as: the
/// gateway hands them on and never computes with them.
#[derive(Debug, PartialEq)]
pub struct GenerationConstraints {
    pub max_tokens: Option<u32>,
    pub temperature: Option<JsonNumber>,
    pub top_p: Option<JsonNumber>,
    pub top_k: Option<u32>,
    pub stop_sequences: Vec<String>,
    pub presence_penalty: Option<JsonNumber>,
    pub frequency_penalty: Option<JsonNumber>,
    /// Provider-specific, such as "low", "medium" or "high".
    pub reasoning_effort: Option<String>,
    pub stream: bool,
}

/// The model of the generation knobs.
pub struct ConstraintsView {
    pub max_tokens: Option<u32>,
    pub temperature: Option<NumberView>,
    pub top_p: Option<NumberView>,
    pub top_k: Option<u32>,
    pub stop_sequences: Seq<Seq<char>>,
    pub presence_penalty: Option<NumberView>,
    pub frequency_penalty: Option<NumberView>,
    pub reasoning_effort: Option<Seq<char>>,
    pub stream: bool,
}

impl View for GenerationConstraints {
    type V = ConstraintsView;

    open spec fn view(&self) -> ConstraintsView {
        ConstraintsView {
            max_tokens: self.max_tokens,
            temperature: opt_number(self.temperature),
            top_p: opt_number(self.top_p),
            top_k: self.top_k,
            stop_sequences: texts(self.stop_sequences@),
            presence_penalty: opt_number(self.presence_penalty),
            frequency_penalty: opt_number(self.frequency_penalty),
            reasoning_effort: opt_text(self.reasoning_effort),
            stream: self.stream,
        }
    }
}

impl ConstraintsView {
    /// No knob set, no stop sequence, no streaming.
    pub open spec fn unset() -> ConstraintsView {
        ConstraintsView {
            max_tokens: None,
            temperature: None,
            top_p: None,
            top_k: None,
            stop_sequences: Seq::empty(),
            presence_penalty: None,
            frequency_penalty: None,
            reasoning_effort: None,
            stream: false,
        }
    }
}

impl Default for GenerationConstraints {
    fn default() -> (c: Self)
        ensures
            c@ == ConstraintsView::unset(),
    {
        let c = GenerationConstraints {
            max_tokens: None,
            temperature: None,
            top_p: None,
            top_k: None,
            stop_sequences: Vec::new(),
            presence_penalty: None,
            frequency_penalty: None,
            reasoning_effort: None,
            stream: false,
        };
        assert(c@.stop_sequences =~= Seq::empty());
        c
    }
}

/// The request that the gateway routes, whatever format it arrived in.
#[derive(Debug, PartialEq)]
pub struct CanonicalAIRequest {
    pub request_id: RequestId,
    /// Who calls, in agentic workflows.
    pub agent_id: Option<String>,
    /// The conversation that the request belongs to.
    pub session_id: Option<String>,
    pub messages: Vec<Message>,
    pub tools: Vec<Tool>,
    /// "auto", "required", "none" or the name of a tool.
    pub tool_choice: Option<String>,
    pub constraints: GenerationConstraints,
    /// A hint for routing, such as the name of a model.
    pub preferred_model: Option<String>,
    /// Carries, among others, the routing override `adapter_id`.
    pub metadata: Metadata,
    /// The JSON Schema of a structured answer.
    pub response_format: Option<Json>,
}

/// The model of a canonical request.
pub struct RequestView {
    pub request_id: RequestId,
    pub agent_id: Option<Seq<char>>,
    pub session_id: Option<Seq<char>>,
    pub messages: Seq<MessageView>,
    pub tools: Seq<ToolView>,
    pub tool_choice: Option<Seq<char>>,
    pub constraints: ConstraintsView,
    pub preferred_model: Option<Seq<char>>,
    pub metadata: Map<Seq<char>, Seq<char>>,
    pub response_format: Option<JsonTree>,
}

impl View for CanonicalAIRequest {
    type V = RequestView;

    open spec fn view(&self) -> RequestView {
        RequestView {
            request_id: self.request_id,
            agent_id: opt_text(self.agent_id),
            session_id: opt_text(self.session_id),
            messages: message_views(self.messages@),
            tools: tool_views(self.tools@),
            tool_choice: opt_text(self.tool_choice),
            constraints: self.constraints@,
            preferred_model: opt_text(self.preferred_model),
            metadata: self.metadata@,
            response_format: opt_tree(self.response_format),
        }
    }
}

impl RequestView {
    /// The request that holds nothing but its identifier.
    pub open spec fn empty(request_id: RequestId) -> RequestView {
        RequestView {
            request_id,
            agent_id: None,
            session_id: None,
            messages: Seq::empty(),
            tools: Seq::empty(),
            tool_choice: None,
            constraints: ConstraintsView::unset(),
            preferred_model: None,
            metadata: Map::empty(),
            response_format: None,
        }
    }

    /// The single-turn request: one user message with one text part.
    pub open spec fn chat_text(
        request_id: RequestId,
        agent_id: Option<Seq<char>>,
        text: Seq<char>,
    ) -> RequestView {
        RequestView {
            agent_id,
            messages: seq![
                MessageView {
                    role: MessageRole::User,
                    content: seq![ContentPartView::Text { text }],
                    name: None,
                    tool_call_id: None,
                },
            ],
            ..RequestView::empty(request_id)
        }
    }
}

impl CanonicalAIRequest {
    /// An empty request under the given identifier.
    pub fn with_id(request_id: RequestId) -> (req: Self)
        ensures
            req@ == RequestView::empty(request_id),
    {
        let req = CanonicalAIRequest {
            request_id,
            agent_id: None,
            session_id: None,
            messages: Vec::new(),
            tools: Vec::new(),
            tool_choice: None,
            constraints: GenerationConstraints::default(),
            preferred_model: None,
            metadata: Metadata::new(),
            response_format: None,
        };
        assert(req@.messages =~= Seq::empty());
        assert(req@.tools =~= Seq::empty());
        req
    }

    /// An empty request under a new identifier, drawn at random.
    pub fn new() -> (req: Self)
        ensures
            req@ == RequestView::empty(req.request_id),
            req.request_id.is_random(),
    {
        CanonicalAIRequest::with_id(RequestId::fresh())
    }

    /// The single-turn request under the given identifier: one user message
    /// that holds `text` as its one part.
    pub fn chat_text_with_id(request_id: RequestId, agent_id: Option<String>, text: String) -> (req:
        Self)
        ensures
            req@ == RequestView::chat_text(request_id, opt_text(agent_id), text@),
    {
        let mut req = CanonicalAIRequest::with_id(request_id);
        req.agent_id = agent_id;
        let mut content: Vec<ContentPart> = Vec::new();
        content.push(ContentPart::Text { text });
        req.messages.push(
            Message { role: MessageRole::User, content, name: None, tool_call_id: None },
        );
        proof {
            let expected = RequestView::chat_text(request_id, opt_text(agent_id), text@);
            assert(req@.messages[0].content =~= expected.messages[0].content);
            assert(req@.messages =~= expected.messages);
            assert(req@.tools =~= expected.tools);
        }
        req
    }

    /// The single-turn request under a new identifier, drawn at random.
    pub fn chat_text(agent_id: Option<String>, text: String) -> (req: Self)
        ensures
            req@ == RequestView::chat_text(req.request_id, opt_text(agent_id), text@),
            req.request_id.is_random(),
    {
        CanonicalAIRequest::chat_text_with_id(RequestId::fresh(), agent_id, text)
    }
}

/// A copy of an optional number.
fn copy_opt_number(o: &Option<JsonNumber>) -> (r: Option<JsonNumber>)
    ensures
        opt_number(r) == opt_number(*o),
{
    match o {
        Some(n) => Some(n.clone()),
        None => None,
    }
}

/// A copy of an optional document.
fn copy_opt_tree(o: &Option<Json>) -> (r: Option<Json>)
    ensures
        opt_tree(r) == opt_tree(*o),
{
    match o {
        Some(t) => Some(t.clone()),
        None => None,
    }
}

impl Clone for Message {
    fn clone(&self) -> (r: Self)
        ensures
            r@ == self@,
    {
        let mut content: Vec<ContentPart> = Vec::new();
        let mut i: usize = 0;
        while i < self.content.len()
            invariant
                i <= self.content.len(),
                content@.len() == i,
                forall|k: int| 0 <= k < i ==> (#[trigger] content@[k])@ == self.content@[k]@,
            decreases self.content.len() - i,
        {
            content.push(self.content[i].clone());
            i += 1;
        }
        assert(part_views(content@) =~= part_views(self.content@));
        Message {
            role: self.role,
            content,
            name: copy_opt_text(&self.name),
            tool_call_id: copy_opt_text(&self.tool_call_id),
        }
    }
}

impl Clone for Tool {
    fn clone(&self) -> (r: Self)
        ensures
            r@ == self@,
    {
        Tool {
            name: self.name.clone(),
            description: copy_opt_text(&self.description),
            parameters_json_schema: copy_opt_tree(&self.parameters_json_schema),
            strict: self.strict,
        }
    }
}

impl Clone for GenerationConstraints {
    fn clone(&self) -> (r: Self)
        ensures
            r@ == self@,
    {
        GenerationConstraints {
            max_tokens: self.max_tokens,
            temperature: copy_opt_number(&self.temperature),
            top_p: copy_opt_number(&self.top_p),
            top_k: self.top_k,
            stop_sequences: copy_texts(&self.stop_sequences),
            presence_penalty: copy_opt_number(&self.presence_penalty),
            frequency_penalty: copy_opt_number(&self.frequency_penalty),
            reasoning_effort: copy_opt_text(&self.reasoning_effort),
            stream: self.stream,
        }
    }
}

impl Clone for CanonicalAIRequest {
    fn clone(&self) -> (r: Self)
        ensures
            r@ == self@,
    {
        let mut messages: Vec<Message> = Vec::new();
        let mut i: usize = 0;
        while i < self.messages.len()
            invariant
                i <= self.messages.len(),
                messages@.len() == i,
                forall|k: int| 0 <= k < i ==> (#[trigger] messages@[k])@ == self.messages@[k]@,
            decreases self.messages.len() - i,
        {
            messages.push(self.messages[i].clone());
            i += 1;
        }
        assert(message_views(messages@) =~= message_views(self.messages@));
        let mut tools: Vec<Tool> = Vec::new();
        let mut i: usize = 0;
        while i < self.tools.len()
            invariant
                i <= self.tools.len(),
                tools@.len() == i,
                forall|k: int| 0 <= k < i ==> (#[trigger] tools@[k])@ == self.tools@[k]@,
            decreases self.tools.len() - i,
        {
            tools.push(self.tools[i].clone());
            i += 1;
        }
        assert(tool_views(tools@) =~= tool_views(self.tools@));
        CanonicalAIRequest {
            request_id: self.request_id,
            agent_id: copy_opt_text(&self.agent_id),
            session_id: copy_opt_text(&self.session_id),
            messages,
            tools,
            tool_choice: copy_opt_text(&self.tool_choice),
            constraints: self.constraints.clone(),
            preferred_model: copy_opt_text(&self.preferred_model),
            metadata: self.metadata.clone(),
            response_format: copy_opt_tree(&self.response_format),
        }
    }
}

} // verus!
