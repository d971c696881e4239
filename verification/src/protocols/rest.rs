//! The REST ingress: the request shapes it accepts and how each is lowered
//! into the canonical request.

use vstd::prelude::*;
use crate::canonical::{
    message_views, opt_tree, part_views, tool_views, CanonicalAIRequest, ConstraintsView,
    ContentPart, ContentPartView, GenerationConstraints, Message, MessageRole, MessageView,
    RequestView, Tool, ToolView,
};
use crate::json::{Json, JsonTree};
use crate::json_codec::{compact_text, parsed_text};
use crate::metadata::Metadata;
use crate::protocols::shapes::{ingress_of, request_id_field};
use crate::request_id::RequestId;
use crate::text::opt_text;

verus! {

/// The body of a shorthand image or audio part.
#[derive(Debug, PartialEq)]
pub struct UrlOnly {
    pub url: String,
}

/// The body of a shorthand file part.
#[derive(Debug, PartialEq)]
pub struct FileOnly {
    pub url: String,
    pub mime_type: String,
}

/// A content part as a client may write it: in the canonical tagged form, or
/// in one of the shorthand forms.
#[derive(Debug, PartialEq)]
pub enum RestContentPartInput {
    /// `{"type": "text", "text": ...}` and its siblings.
    Canonical(ContentPart),
    /// `{"text": ...}`
    Text { text: String },
    /// `{"image": {"url": ...}}`
    Image { image: UrlOnly },
    /// `{"audio": {"url": ...}}`
    Audio { audio: UrlOnly },
    /// `{"file": {"url": ..., "mime_type": ...}}`
    File { file: FileOnly },
}

/// The model of a content part as written.
pub enum PartInputView {
    Canonical(ContentPartView),
    Text { text: Seq<char> },
    Image { url: Seq<char> },
    Audio { url: Seq<char> },
    File { url: Seq<char>, mime_type: Seq<char> },
}

impl View for RestContentPartInput {
    type V = PartInputView;

    open spec fn view(&self) -> PartInputView {
        match self {
            RestContentPartInput::Canonical(p) => PartInputView::Canonical(p@),
            RestContentPartInput::Text { text } => PartInputView::Text { text: text@ },
            RestContentPartInput::Image { image } => PartInputView::Image { url: image.url@ },
            RestContentPartInput::Audio { audio } => PartInputView::Audio { url: audio.url@ },
            RestContentPartInput::File { file } => PartInputView::File {
                url: file.url@,
                mime_type: file.mime_type@,
            },
        }
    }
}

/// The models of a list of written content parts, in order.
pub open spec fn part_input_views(parts: Seq<RestContentPartInput>) -> Seq<PartInputView> {
    Seq::new(parts.len(), |i: int| parts[i]@)
}

/// A message as a client may write it.
#[derive(Debug, PartialEq)]
pub struct RestMessageInput {
    pub role: MessageRole,
    pub content: Vec<RestContentPartInput>,
    pub name: Option<String>,
    pub tool_call_id: Option<String>,
}

/// The model of a message as written.
pub struct MessageInputView {
    pub role: MessageRole,
    pub content: Seq<PartInputView>,
    pub name: Option<Seq<char>>,
    pub tool_call_id: Option<Seq<char>>,
}

impl View for RestMessageInput {
    type V = MessageInputView;

    open spec fn view(&self) -> MessageInputView {
        MessageInputView {
            role: self.role,
            content: part_input_views(self.content@),
            name: opt_text(self.name),
            tool_call_id: opt_text(self.tool_call_id),
        }
    }
}

/// The models of a list of written messages, in order.
pub open spec fn message_input_views(messages: Seq<RestMessageInput>) -> Seq<MessageInputView> {
    Seq::new(messages.len(), |i: int| messages[i]@)
}

/// The current request shape: any subset of the canonical request's fields.
#[derive(Debug, PartialEq)]
pub struct CanonicalIngressRequest {
    pub request_id: Option<RequestId>,
    pub agent_id: Option<String>,
    pub session_id: Option<String>,
    pub messages: Vec<RestMessageInput>,
    pub tools: Vec<Tool>,
    pub tool_choice: Option<String>,
    pub constraints: Option<GenerationConstraints>,
    pub preferred_model: Option<String>,
    pub metadata: Metadata,
    pub response_format: Option<Json>,
}

/// The model of a request in the current shape.
pub struct CanonicalIngressView {
    pub request_id: Option<RequestId>,
    pub agent_id: Option<Seq<char>>,
    pub session_id: Option<Seq<char>>,
    pub messages: Seq<MessageInputView>,
    pub tools: Seq<ToolView>,
    pub tool_choice: Option<Seq<char>>,
    pub constraints: Option<ConstraintsView>,
    pub preferred_model: Option<Seq<char>>,
    pub metadata: Map<Seq<char>, Seq<char>>,
    pub response_format: Option<JsonTree>,
}

/// The model of optional generation knobs.
pub open spec fn opt_constraints(o: Option<GenerationConstraints>) -> Option<ConstraintsView> {
    match o {
        Some(c) => Some(c@),
        None => None,
    }
}

impl View for CanonicalIngressRequest {
    type V = CanonicalIngressView;

    open spec fn view(&self) -> CanonicalIngressView {
        CanonicalIngressView {
            request_id: self.request_id,
            agent_id: opt_text(self.agent_id),
            session_id: opt_text(self.session_id),
            messages: message_input_views(self.messages@),
            tools: tool_views(self.tools@),
            tool_choice: opt_text(self.tool_choice),
            constraints: opt_constraints(self.constraints),
            preferred_model: opt_text(self.preferred_model),
            metadata: self.metadata@,
            response_format: opt_tree(self.response_format),
        }
    }
}

/// The oldest request shape: a single string payload.
#[derive(Debug, PartialEq)]
pub struct LegacyV0Request {
    pub agent_id: String,
    pub payload: String,
}

/// The model of a request in the oldest shape.
pub struct LegacyV0View {
    pub agent_id: Seq<char>,
    pub payload: Seq<char>,
}

impl View for LegacyV0Request {
    type V = LegacyV0View;

    open spec fn view(&self) -> LegacyV0View {
        LegacyV0View { agent_id: self.agent_id@, payload: self.payload@ }
    }
}

/// The payload of a request in the older structured shape.
#[derive(Debug, PartialEq)]
pub enum LegacyPayload {
    Text { text: String },
    Json { json: Json },
}

/// The model of a structured legacy payload.
pub enum LegacyPayloadView {
    Text { text: Seq<char> },
    Json { json: JsonTree },
}

impl View for LegacyPayload {
    type V = LegacyPayloadView;

    open spec fn view(&self) -> LegacyPayloadView {
        match self {
            LegacyPayload::Text { text } => LegacyPayloadView::Text { text: text@ },
            LegacyPayload::Json { json } => LegacyPayloadView::Json { json: json@ },
        }
    }
}

/// The older structured request shape: an intent and a payload.
#[derive(Debug, PartialEq)]
pub struct LegacyV1Request {
    pub agent_id: String,
    pub intent: String,
    pub payload: LegacyPayload,
}

/// The model of a request in the older structured shape.
pub struct LegacyV1View {
    pub agent_id: Seq<char>,
    pub intent: Seq<char>,
    pub payload: LegacyPayloadView,
}

impl View for LegacyV1Request {
    type V = LegacyV1View;

    open spec fn view(&self) -> LegacyV1View {
        LegacyV1View { agent_id: self.agent_id@, intent: self.intent@, payload: self.payload@ }
    }
}

/// A request in one of the three accepted shapes.
#[derive(Debug, PartialEq)]
pub enum RestIngressRequest {
    V0(LegacyV0Request),
    V1(LegacyV1Request),
    V2(CanonicalIngressRequest),
}

/// The model of an accepted request.
pub enum RestIngressView {
    V0(LegacyV0View),
    V1(LegacyV1View),
    V2(CanonicalIngressView),
}

impl View for RestIngressRequest {
    type V = RestIngressView;

    open spec fn view(&self) -> RestIngressView {
        match self {
            RestIngressRequest::V0(v) => RestIngressView::V0(v@),
            RestIngressRequest::V1(v) => RestIngressView::V1(v@),
            RestIngressRequest::V2(v) => RestIngressView::V2(v@),
        }
    }
}

/// Why an ingress payload was turned away.
#[derive(Clone, Copy, Debug, PartialEq, Eq, Structural)]
pub enum IngressError {
    /// The payload matches none of the accepted shapes.
    MalformedIngress,
    /// The payload is well-shaped but carries no message.
    ValidationFailed,
}

/// The canonical part that a written part stands for.
pub open spec fn lowered_part(p: PartInputView) -> ContentPartView {
    match p {
        PartInputView::Canonical(c) => c,
        PartInputView::Text { text } => ContentPartView::Text { text },
        PartInputView::Image { url } => ContentPartView::Image { url },
        PartInputView::Audio { url } => ContentPartView::Audio { url },
        PartInputView::File { url, mime_type } => ContentPartView::File { url, mime_type },
    }
}

/// The canonical parts that written parts stand for: one for one, in order.
pub open spec fn lowered_parts(parts: Seq<PartInputView>) -> Seq<ContentPartView> {
    Seq::new(parts.len(), |i: int| lowered_part(parts[i]))
}

/// The canonical message that a written message stands for.
pub open spec fn lowered_message(m: MessageInputView) -> MessageView {
    MessageView {
        role: m.role,
        content: lowered_parts(m.content),
        name: m.name,
        tool_call_id: m.tool_call_id,
    }
}

/// The canonical messages that written messages stand for: one for one, in
/// order.
pub open spec fn lowered_messages(messages: Seq<MessageInputView>) -> Seq<MessageView> {
    Seq::new(messages.len(), |i: int| lowered_message(messages[i]))
}

/// The text of a structured legacy payload: its text, or the compact JSON
/// text of its document.
pub open spec fn payload_text(p: LegacyPayloadView) -> Seq<char> {
    match p {
        LegacyPayloadView::Text { text } => text,
        LegacyPayloadView::Json { json } => compact_text(json),
    }
}

/// The canonical request that an accepted request stands for. `fresh` is the
/// identifier it gets where it brings none.
pub open spec fn canonical_of(ingress: RestIngressView, fresh: RequestId) -> RequestView {
    match ingress {
        RestIngressView::V0(v) => RequestView::chat_text(fresh, Some(v.agent_id), v.payload),
        RestIngressView::V1(v) => RequestView {
            metadata: Map::empty().insert("legacy_intent"@, v.intent),
            ..RequestView::chat_text(fresh, Some(v.agent_id), payload_text(v.payload))
        },
        RestIngressView::V2(v) => RequestView {
            request_id: match v.request_id {
                Some(id) => id,
                None => fresh,
            },
            agent_id: v.agent_id,
            session_id: v.session_id,
            messages: lowered_messages(v.messages),
            tools: v.tools,
            tool_choice: v.tool_choice,
            constraints: match v.constraints {
                Some(c) => c,
                None => ConstraintsView::unset(),
            },
            preferred_model: v.preferred_model,
            metadata: v.metadata,
            response_format: v.response_format,
        },
    }
}

/// The routing convenience: where no `adapter_id` is given, a
/// `preferred_provider` names the adapter. An explicit `adapter_id` stays.
pub open spec fn with_preferred_provider(metadata: Map<Seq<char>, Seq<char>>) -> Map<
    Seq<char>,
    Seq<char>,
> {
    if !metadata.contains_key("adapter_id"@) && metadata.contains_key("preferred_provider"@) {
        metadata.insert("adapter_id"@, metadata["preferred_provider"@])
    } else {
        metadata
    }
}

impl RestContentPartInput {
    /// The canonical part that this written part stands for.
    pub fn into_part(self) -> (p: ContentPart)
        ensures
            p@ == lowered_part(self@),
    {
        match self {
            RestContentPartInput::Canonical(p) => p,
            RestContentPartInput::Text { text } => ContentPart::Text { text },
            RestContentPartInput::Image { image } => ContentPart::Image { url: image.url },
            RestContentPartInput::Audio { audio } => ContentPart::Audio { url: audio.url },
            RestContentPartInput::File { file } => ContentPart::File {
                url: file.url,
                mime_type: file.mime_type,
            },
        }
    }
}

/// Lowers written parts into canonical parts: as many parts come out as went
/// in, and the part at each place stands for the written part at that place.
pub fn lower_parts(parts: Vec<RestContentPartInput>) -> (out: Vec<ContentPart>)
    ensures
        out@.len() == parts@.len(),
        forall|i: int| 0 <= i < parts@.len() ==> (#[trigger] out@[i])@ == lowered_part(parts@[i]@),
        part_views(out@) == lowered_parts(part_input_views(parts@)),
{
    let ghost written = parts@;
    let mut out: Vec<ContentPart> = Vec::new();
    for part in iter: parts
        invariant
            iter.seq() == written,
            out@.len() == iter.index(),
            forall|i: int| 0 <= i < out@.len() ==> (#[trigger] out@[i])@ == lowered_part(written[i]@),
    {
        out.push(part.into_part());
    }
    assert(part_views(out@) =~= lowered_parts(part_input_views(written)));
    out
}

impl RestMessageInput {
    /// The canonical message that this written message stands for.
    pub fn into_message(self) -> (m: Message)
        ensures
            m@ == lowered_message(self@),
    {
        Message {
            role: self.role,
            content: lower_parts(self.content),
            name: self.name,
            tool_call_id: self.tool_call_id,
        }
    }
}

/// Lowers written messages into canonical messages, one for one, in order.
pub fn lower_messages(messages: Vec<RestMessageInput>) -> (out: Vec<Message>)
    ensures
        out@.len() == messages@.len(),
        forall|i: int|
            0 <= i < messages@.len() ==> (#[trigger] out@[i])@ == lowered_message(messages@[i]@),
        message_views(out@) == lowered_messages(message_input_views(messages@)),
{
    let ghost written = messages@;
    let mut out: Vec<Message> = Vec::new();
    for message in iter: messages
        invariant
            iter.seq() == written,
            out@.len() == iter.index(),
            forall|i: int|
                0 <= i < out@.len() ==> (#[trigger] out@[i])@ == lowered_message(written[i]@),
    {
        out.push(message.into_message());
    }
    assert(message_views(out@) =~= lowered_messages(message_input_views(written)));
    out
}

impl LegacyPayload {
    /// The text of the payload: its text, or the compact JSON text of its
    /// document.
    pub fn into_text(self) -> (text: String)
        ensures
            text@ == payload_text(self@),
    {
        match self {
            LegacyPayload::Text { text } => text,
            LegacyPayload::Json { json } => json.to_text(),
        }
    }
}

impl RestIngressRequest {
    /// The canonical request that this accepted request stands for. `fresh`
    /// is the identifier it gets where it brings none.
    pub fn into_canonical(self, fresh: RequestId) -> (req: CanonicalAIRequest)
        ensures
            req@ == canonical_of(self@, fresh),
    {
        match self {
            RestIngressRequest::V0(v) => CanonicalAIRequest::chat_text_with_id(
                fresh,
                Some(v.agent_id),
                v.payload,
            ),
            RestIngressRequest::V1(v) => {
                let text = v.payload.into_text();
                let mut req = CanonicalAIRequest::chat_text_with_id(fresh, Some(v.agent_id), text);
                req.metadata.insert("legacy_intent".to_string(), v.intent);
                req
            },
            RestIngressRequest::V2(v) => {
                let constraints = match v.constraints {
                    Some(c) => c,
                    None => GenerationConstraints::default(),
                };
                CanonicalAIRequest {
                    request_id: match v.request_id {
                        Some(id) => id,
                        None => fresh,
                    },
                    agent_id: v.agent_id,
                    session_id: v.session_id,
                    messages: lower_messages(v.messages),
                    tools: v.tools,
                    tool_choice: v.tool_choice,
                    constraints,
                    preferred_model: v.preferred_model,
                    metadata: v.metadata,
                    response_format: v.response_format,
                }
            },
        }
    }
}

/// The model of what normalizing hands back.
pub open spec fn outcome_view(r: Result<CanonicalAIRequest, IngressError>) -> Result<
    RequestView,
    IngressError,
> {
    match r {
        Ok(req) => Ok(req@),
        Err(e) => Err(e),
    }
}

/// What normalizing an accepted request yields: its canonical request with
/// the routing convenience applied, unless that request carries no message.
pub open spec fn normalized_ingress(ingress: RestIngressView, fresh: RequestId) -> Result<
    RequestView,
    IngressError,
> {
    let lowered = canonical_of(ingress, fresh);
    if lowered.messages.len() == 0 {
        Err(IngressError::ValidationFailed)
    } else {
        Ok(RequestView { metadata: with_preferred_provider(lowered.metadata), ..lowered })
    }
}

/// What normalizing a payload yields.
pub open spec fn normalized(t: JsonTree, fresh: RequestId) -> Result<RequestView, IngressError> {
    match ingress_of(t) {
        Some(ingress) => normalized_ingress(ingress, fresh),
        None => Err(IngressError::MalformedIngress),
    }
}

/// What normalizing the text of a payload yields.
pub open spec fn normalized_text(body: Seq<u8>, fresh: RequestId) -> Result<
    RequestView,
    IngressError,
> {
    match parsed_text(body) {
        Some(t) => normalized(t, fresh),
        None => Err(IngressError::MalformedIngress),
    }
}

/// Whatever shape a payload has, the request that normalizing yields carries
/// a message, and its identifier is the one that the payload brought or else
/// the fresh one.
pub proof fn lemma_normalized_can_be_dispatched(t: JsonTree, fresh: RequestId)
    ensures
        normalized(t, fresh) matches Ok(r) ==> r.messages.len() > 0 && (r.request_id == fresh
            || request_id_field(t) == Some(Some(r.request_id))),
{
}

/// A payload in one of the legacy shapes is always normalized: into a single
/// user message with a single text part, under the fresh identifier.
pub proof fn lemma_legacy_is_always_normalized(t: JsonTree, fresh: RequestId)
    requires
        ingress_of(t) is Some,
        !(ingress_of(t)->0 is V2),
    ensures
        normalized(t, fresh) matches Ok(r) && r.request_id == fresh && r.messages.len() == 1
            && r.messages[0].role == MessageRole::User && r.messages[0].content.len() == 1
            && r.messages[0].content[0] is Text,
{
}

/// The routing convenience never touches an explicit `adapter_id`, sets it
/// to the `preferred_provider` where there is none, and leaves every other
/// key as it is.
pub proof fn lemma_preferred_provider(metadata: Map<Seq<char>, Seq<char>>)
    ensures
        metadata.contains_key("adapter_id"@) ==> with_preferred_provider(metadata) == metadata,
        !metadata.contains_key("preferred_provider"@) ==> with_preferred_provider(metadata)
            == metadata,
        !metadata.contains_key("adapter_id"@) && metadata.contains_key("preferred_provider"@)
            ==> with_preferred_provider(metadata).contains_key("adapter_id"@)
            && with_preferred_provider(metadata)["adapter_id"@] == metadata["preferred_provider"@],
        forall|k: Seq<char>|
            k != "adapter_id"@ ==> with_preferred_provider(metadata).contains_key(k)
                == metadata.contains_key(k) && (metadata.contains_key(k)
                ==> #[trigger] with_preferred_provider(metadata)[k] == metadata[k]),
{
}

/// Checks that a request may be dispatched: it must carry a message.
pub fn validate(req: &CanonicalAIRequest) -> (r: Result<(), IngressError>)
    ensures
        r is Ok <==> req@.messages.len() > 0,
        r is Err ==> r matches Err(IngressError::ValidationFailed),
{
    if req.messages.len() == 0 {
        Err(IngressError::ValidationFailed)
    } else {
        Ok(())
    }
}

/// Normalizes an accepted request: lowers it, applies the routing
/// convenience and checks that the result carries a message.
pub fn normalize_ingress(ingress: RestIngressRequest, fresh: RequestId) -> (r: Result<
    CanonicalAIRequest,
    IngressError,
>)
    ensures
        outcome_view(r) == normalized_ingress(ingress@, fresh),
        r matches Ok(req) ==> req@.messages.len() > 0,
{
    let mut req = ingress.into_canonical(fresh);
    apply_preferred_provider(&mut req);
    match validate(&req) {
        Ok(()) => Ok(req),
        Err(e) => Err(e),
    }
}

/// Normalizes a payload into a canonical request. `fresh` is the identifier
/// that the request gets where the payload brings none.
///
/// Fails with `MalformedIngress` exactly where the payload has none of the
/// accepted shapes, and with `ValidationFailed` exactly where it has one but
/// carries no message. A request that comes out carries a message, and its
/// identifier is the one the payload brought or else `fresh`.
pub fn normalize(raw: &Json, fresh: RequestId) -> (r: Result<CanonicalAIRequest, IngressError>)
    ensures
        outcome_view(r) == normalized(raw@, fresh),
        r matches Err(IngressError::MalformedIngress) <==> ingress_of(raw@) is None,
        r matches Err(IngressError::ValidationFailed) <==> ingress_of(raw@) is Some && canonical_of(
            ingress_of(raw@)->0,
            fresh,
        ).messages.len() == 0,
        r matches Ok(req) ==> req@.messages.len() > 0 && (req.request_id == fresh
            || request_id_field(raw@) == Some(Some(req.request_id))),
{
    match RestIngressRequest::from_json(raw) {
        Some(ingress) => normalize_ingress(ingress, fresh),
        None => Err(IngressError::MalformedIngress),
    }
}

/// Normalizes a payload under a new identifier, drawn at random.
pub fn normalize_new(raw: &Json) -> (r: Result<CanonicalAIRequest, IngressError>)
    ensures
        exists|fresh: RequestId| fresh.is_random() && outcome_view(r) == normalized(raw@, fresh),
{
    let fresh = RequestId::fresh();
    normalize(raw, fresh)
}

/// Normalizes the JSON text of a payload. A text that is not JSON is
/// malformed.
pub fn normalize_text(body: &[u8], fresh: RequestId) -> (r: Result<CanonicalAIRequest, IngressError>)
    ensures
        outcome_view(r) == normalized_text(body@, fresh),
        r matches Ok(req) ==> req@.messages.len() > 0,
{
    match Json::parse(body) {
        Some(raw) => normalize(&raw, fresh),
        None => Err(IngressError::MalformedIngress),
    }
}

/// Applies the routing convenience to a request: where its metadata gives no
/// `adapter_id` but a `preferred_provider`, the provider becomes the
/// `adapter_id`. Nothing else changes.
pub fn apply_preferred_provider(req: &mut CanonicalAIRequest)
    ensures
        final(req)@ == (RequestView {
            metadata: with_preferred_provider(old(req)@.metadata),
            ..old(req)@
        }),
{
    if !req.metadata.contains_key("adapter_id") {
        let provider = match req.metadata.get("preferred_provider") {
            Some(p) => Some(p.clone()),
            None => None,
        };
        match provider {
            Some(p) => {
                req.metadata.insert("adapter_id".to_string(), p);
            },
            None => {},
        }
    }
}

} // verus!
