//! The wire form of a canonical request: the JSON document that stands for
//! it, which is also what the replay log records.
//!
//! Optional fields that are not set are left out. A request in wire form is
//! itself an accepted ingress payload of the current shape.

use vstd::prelude::*;
use crate::canonical::{
    CanonicalAIRequest, ConstraintsView, ContentPart, ContentPartView, GenerationConstraints,
    Message, MessageRole, MessageView, RequestView, Tool, ToolView,
};
use crate::json::{
    lemma_map_of_no_pairs, lemma_map_of_pairs_push, map_of_pairs, pairs, trees, Json, JsonNumber,
    JsonTree, NumberView,
};
use crate::metadata::Metadata;
use crate::request_id::uuid_text;

verus! {

/// The name of a role on the wire.
pub open spec fn role_name(role: MessageRole) -> Seq<char> {
    match role {
        MessageRole::System => "system"@,
        MessageRole::User => "user"@,
        MessageRole::Assistant => "assistant"@,
        MessageRole::Tool => "tool"@,
    }
}

/// The fields `m` with `key` set to the text, where there is one.
pub open spec fn with_text(
    m: Map<Seq<char>, JsonTree>,
    key: Seq<char>,
    value: Option<Seq<char>>,
) -> Map<Seq<char>, JsonTree> {
    match value {
        Some(s) => m.insert(key, JsonTree::String(s)),
        None => m,
    }
}

/// The fields `m` with `key` set to the number, where there is one.
pub open spec fn with_number(
    m: Map<Seq<char>, JsonTree>,
    key: Seq<char>,
    value: Option<NumberView>,
) -> Map<Seq<char>, JsonTree> {
    match value {
        Some(n) => m.insert(key, JsonTree::Number(n)),
        None => m,
    }
}

/// The fields `m` with `key` set to the count, where there is one.
pub open spec fn with_count(
    m: Map<Seq<char>, JsonTree>,
    key: Seq<char>,
    value: Option<u32>,
) -> Map<Seq<char>, JsonTree> {
    match value {
        Some(k) => m.insert(key, JsonTree::Number(NumberView::Int(k as int))),
        None => m,
    }
}

/// The fields `m` with `key` set to the document, where there is one.
pub open spec fn with_tree(
    m: Map<Seq<char>, JsonTree>,
    key: Seq<char>,
    value: Option<JsonTree>,
) -> Map<Seq<char>, JsonTree> {
    match value {
        Some(t) => m.insert(key, t),
        None => m,
    }
}

/// A content part on the wire: the tagged form.
pub open spec fn part_tree(p: ContentPartView) -> JsonTree {
    match p {
        ContentPartView::Text { text } => JsonTree::Object(
            Map::empty().insert("type"@, JsonTree::String("text"@)).insert(
                "text"@,
                JsonTree::String(text),
            ),
        ),
        ContentPartView::Image { url } => JsonTree::Object(
            Map::empty().insert("type"@, JsonTree::String("image"@)).insert(
                "url"@,
                JsonTree::String(url),
            ),
        ),
        ContentPartView::Audio { url } => JsonTree::Object(
            Map::empty().insert("type"@, JsonTree::String("audio"@)).insert(
                "url"@,
                JsonTree::String(url),
            ),
        ),
        ContentPartView::File { url, mime_type } => JsonTree::Object(
            Map::empty().insert("type"@, JsonTree::String("file"@)).insert(
                "url"@,
                JsonTree::String(url),
            ).insert("mime_type"@, JsonTree::String(mime_type)),
        ),
    }
}

/// The content parts of a message on the wire, in order.
pub open spec fn part_trees(parts: Seq<ContentPartView>) -> Seq<JsonTree> {
    Seq::new(parts.len(), |i: int| part_tree(parts[i]))
}

/// A message on the wire.
pub open spec fn message_tree(m: MessageView) -> JsonTree {
    JsonTree::Object(
        with_text(
            with_text(
                Map::empty().insert("role"@, JsonTree::String(role_name(m.role))).insert(
                    "content"@,
                    JsonTree::Array(part_trees(m.content)),
                ),
                "name"@,
                m.name,
            ),
            "tool_call_id"@,
            m.tool_call_id,
        ),
    )
}

/// The messages of a request on the wire, in order.
pub open spec fn message_trees(messages: Seq<MessageView>) -> Seq<JsonTree> {
    Seq::new(messages.len(), |i: int| message_tree(messages[i]))
}

/// A tool on the wire.
pub open spec fn tool_tree(t: ToolView) -> JsonTree {
    JsonTree::Object(
        with_tree(
            with_text(
                Map::empty().insert("name"@, JsonTree::String(t.name)),
                "description"@,
                t.description,
            ),
            "parameters_json_schema"@,
            t.parameters_json_schema,
        ).insert("strict"@, JsonTree::Bool(t.strict)),
    )
}

/// The tools of a request on the wire, in order.
pub open spec fn tool_trees(tools: Seq<ToolView>) -> Seq<JsonTree> {
    Seq::new(tools.len(), |i: int| tool_tree(tools[i]))
}

/// A list of strings on the wire.
pub open spec fn text_trees(items: Seq<Seq<char>>) -> Seq<JsonTree> {
    Seq::new(items.len(), |i: int| JsonTree::String(items[i]))
}

/// The generation knobs on the wire.
pub open spec fn constraints_tree(c: ConstraintsView) -> JsonTree {
    JsonTree::Object(
        with_text(
            with_number(
                with_number(
                    with_count(
                        with_number(
                            with_number(
                                with_count(Map::empty(), "max_tokens"@, c.max_tokens),
                                "temperature"@,
                                c.temperature,
                            ),
                            "top_p"@,
                            c.top_p,
                        ),
                        "top_k"@,
                        c.top_k,
                    ).insert("stop_sequences"@, JsonTree::Array(text_trees(c.stop_sequences))),
                    "presence_penalty"@,
                    c.presence_penalty,
                ),
                "frequency_penalty"@,
                c.frequency_penalty,
            ),
            "reasoning_effort"@,
            c.reasoning_effort,
        ).insert("stream"@, JsonTree::Bool(c.stream)),
    )
}

/// A mapping from string to string as the fields of an object.
pub open spec fn text_values(m: Map<Seq<char>, Seq<char>>) -> Map<Seq<char>, JsonTree> {
    Map::new(|k: Seq<char>| m.contains_key(k), |k: Seq<char>| JsonTree::String(m[k]))
}

/// A canonical request on the wire.
pub open spec fn request_tree(r: RequestView) -> JsonTree {
    JsonTree::Object(
        with_tree(
            with_text(
                with_text(
                    with_text(
                        with_text(
                            Map::empty().insert(
                                "request_id"@,
                                JsonTree::String(uuid_text(r.request_id.value)),
                            ),
                            "agent_id"@,
                            r.agent_id,
                        ),
                        "session_id"@,
                        r.session_id,
                    ).insert("messages"@, JsonTree::Array(message_trees(r.messages))).insert(
                        "tools"@,
                        JsonTree::Array(tool_trees(r.tools)),
                    ),
                    "tool_choice"@,
                    r.tool_choice,
                ).insert("constraints"@, constraints_tree(r.constraints)),
                "preferred_model"@,
                r.preferred_model,
            ).insert("metadata"@, JsonTree::Object(text_values(r.metadata))),
            "response_format"@,
            r.response_format,
        ),
    )
}

/// The fields that are being written out for one object.
pub struct Fields {
    list: Vec<(String, Json)>,
}

impl View for Fields {
    type V = Map<Seq<char>, JsonTree>;

    closed spec fn view(&self) -> Map<Seq<char>, JsonTree> {
        map_of_pairs(pairs(self.list@))
    }
}

impl Fields {
    /// No fields.
    pub fn new() -> (f: Fields)
        ensures
            f@ == (Map::<Seq<char>, JsonTree>::empty()),
    {
        let f = Fields { list: Vec::new() };
        proof {
            lemma_map_of_no_pairs::<JsonTree>();
            assert(pairs(f.list@) =~= Seq::empty());
        }
        f
    }

    /// Sets `key` to `value`.
    pub fn put(&mut self, key: &str, value: Json)
        ensures
            final(self)@ == old(self)@.insert(key@, value@),
    {
        let ghost before = self.list@;
        let owned = key.to_string();
        proof {
            lemma_map_of_pairs_push(pairs(before), key@, value@);
        }
        self.list.push((owned, value));
        proof {
            assert(pairs(self.list@) =~= pairs(before).push((key@, value@)));
        }
    }

    /// Sets `key` to the text, where there is one.
    pub fn put_text(&mut self, key: &str, value: &Option<String>)
        ensures
            final(self)@ == with_text(old(self)@, key@, crate::text::opt_text(*value)),
    {
        match value {
            Some(s) => self.put(key, Json::String(s.clone())),
            None => {},
        }
    }

    /// Sets `key` to the number, where there is one.
    pub fn put_number(&mut self, key: &str, value: &Option<JsonNumber>)
        ensures
            final(self)@ == with_number(old(self)@, key@, crate::canonical::opt_number(*value)),
    {
        match value {
            Some(n) => self.put(key, Json::Number(n.clone())),
            None => {},
        }
    }

    /// Sets `key` to the count, where there is one.
    pub fn put_count(&mut self, key: &str, value: Option<u32>)
        ensures
            final(self)@ == with_count(old(self)@, key@, value),
    {
        match value {
            Some(k) => self.put(key, Json::Number(JsonNumber::PosInt(k as u64))),
            None => {},
        }
    }

    /// Sets `key` to the document, where there is one.
    pub fn put_tree(&mut self, key: &str, value: &Option<Json>)
        ensures
            final(self)@ == with_tree(old(self)@, key@, crate::canonical::opt_tree(*value)),
    {
        match value {
            Some(t) => self.put(key, t.clone()),
            None => {},
        }
    }

    /// The object that holds the fields.
    pub fn into_object(self) -> (j: Json)
        ensures
            j@ == JsonTree::Object(self@),
    {
        Json::Object(self.list)
    }
}

impl MessageRole {
    /// The name of the role on the wire.
    pub fn name(&self) -> (s: &'static str)
        ensures
            s@ == role_name(*self),
    {
        match self {
            MessageRole::System => "system",
            MessageRole::User => "user",
            MessageRole::Assistant => "assistant",
            MessageRole::Tool => "tool",
        }
    }
}

impl ContentPart {
    /// The part on the wire.
    pub fn to_json(&self) -> (j: Json)
        ensures
            j@ == part_tree(self@),
    {
        let mut f = Fields::new();
        match self {
            ContentPart::Text { text } => {
                f.put("type", Json::String("text".to_string()));
                f.put("text", Json::String(text.clone()));
            },
            ContentPart::Image { url } => {
                f.put("type", Json::String("image".to_string()));
                f.put("url", Json::String(url.clone()));
            },
            ContentPart::Audio { url } => {
                f.put("type", Json::String("audio".to_string()));
                f.put("url", Json::String(url.clone()));
            },
            ContentPart::File { url, mime_type } => {
                f.put("type", Json::String("file".to_string()));
                f.put("url", Json::String(url.clone()));
                f.put("mime_type", Json::String(mime_type.clone()));
            },
        }
        f.into_object()
    }
}

impl Message {
    /// The message on the wire.
    pub fn to_json(&self) -> (j: Json)
        ensures
            j@ == message_tree(self@),
    {
        let mut parts: Vec<Json> = Vec::new();
        let mut i: usize = 0;
        while i < self.content.len()
            invariant
                i <= self.content.len(),
                parts@.len() == i,
                forall|k: int| 0 <= k < i ==> (#[trigger] parts@[k])@ == part_tree(self.content@[k]@),
            decreases self.content.len() - i,
        {
            parts.push(self.content[i].to_json());
            i += 1;
        }
        assert(trees(parts@) =~= part_trees(self@.content));
        let mut f = Fields::new();
        f.put("role", Json::String(self.role.name().to_string()));
        f.put("content", Json::Array(parts));
        f.put_text("name", &self.name);
        f.put_text("tool_call_id", &self.tool_call_id);
        f.into_object()
    }
}

impl Tool {
    /// The tool on the wire.
    pub fn to_json(&self) -> (j: Json)
        ensures
            j@ == tool_tree(self@),
    {
        let mut f = Fields::new();
        f.put("name", Json::String(self.name.clone()));
        f.put_text("description", &self.description);
        f.put_tree("parameters_json_schema", &self.parameters_json_schema);
        f.put("strict", Json::Bool(self.strict));
        f.into_object()
    }
}

impl GenerationConstraints {
    /// The generation knobs on the wire.
    pub fn to_json(&self) -> (j: Json)
        ensures
            j@ == constraints_tree(self@),
    {
        let mut stops: Vec<Json> = Vec::new();
        let mut i: usize = 0;
        while i < self.stop_sequences.len()
            invariant
                i <= self.stop_sequences.len(),
                stops@.len() == i,
                forall|k: int|
                    0 <= k < i ==> (#[trigger] stops@[k])@ == JsonTree::String(
                        self.stop_sequences@[k]@,
                    ),
            decreases self.stop_sequences.len() - i,
        {
            stops.push(Json::String(self.stop_sequences[i].clone()));
            i += 1;
        }
        assert(trees(stops@) =~= text_trees(self@.stop_sequences));
        let mut f = Fields::new();
        f.put_count("max_tokens", self.max_tokens);
        f.put_number("temperature", &self.temperature);
        f.put_number("top_p", &self.top_p);
        f.put_count("top_k", self.top_k);
        f.put("stop_sequences", Json::Array(stops));
        f.put_number("presence_penalty", &self.presence_penalty);
        f.put_number("frequency_penalty", &self.frequency_penalty);
        f.put_text("reasoning_effort", &self.reasoning_effort);
        f.put("stream", Json::Bool(self.stream));
        f.into_object()
    }
}

impl Metadata {
    /// The mapping on the wire: an object with one string field for each
    /// key.
    pub fn to_json(&self) -> (j: Json)
        ensures
            j@ == JsonTree::Object(text_values(self@)),
    {
        let mut f = Fields::new();
        let n = self.len();
        let mut i: usize = 0;
        proof {
            self.lemma_view();
            lemma_map_of_no_pairs::<Seq<char>>();
            assert(self.entries().take(0) =~= Seq::empty());
            assert(f@ =~= text_values(map_of_pairs(self.entries().take(0))));
        }
        while i < n
            invariant
                i <= n,
                n == self.entries().len(),
                f@ == text_values(map_of_pairs(self.entries().take(i as int))),
            decreases n - i,
        {
            let key = self.key_at(i);
            let value = self.value_at(i);
            proof {
                let es = self.entries();
                lemma_map_of_pairs_push(es.take(i as int), es[i as int].0, es[i as int].1);
                assert(es.take(i as int).push((es[i as int].0, es[i as int].1)) =~= es.take(i + 1));
                assert(text_values(map_of_pairs(es.take(i as int))).insert(
                    es[i as int].0,
                    JsonTree::String(es[i as int].1),
                ) =~= text_values(map_of_pairs(es.take(i + 1))));
            }
            f.put(key.as_str(), Json::String(value.clone()));
            i += 1;
        }
        proof {
            self.lemma_view();
            assert(self.entries().take(n as int) =~= self.entries());
        }
        f.into_object()
    }
}

impl CanonicalAIRequest {
    /// The request on the wire.
    pub fn to_json(&self) -> (j: Json)
        ensures
            j@ == request_tree(self@),
    {
        let mut messages: Vec<Json> = Vec::new();
        let mut i: usize = 0;
        while i < self.messages.len()
            invariant
                i <= self.messages.len(),
                messages@.len() == i,
                forall|k: int|
                    0 <= k < i ==> (#[trigger] messages@[k])@ == message_tree(self.messages@[k]@),
            decreases self.messages.len() - i,
        {
            messages.push(self.messages[i].to_json());
            i += 1;
        }
        assert(trees(messages@) =~= message_trees(self@.messages));
        let mut tools: Vec<Json> = Vec::new();
        let mut i: usize = 0;
        while i < self.tools.len()
            invariant
                i <= self.tools.len(),
                tools@.len() == i,
                forall|k: int| 0 <= k < i ==> (#[trigger] tools@[k])@ == tool_tree(self.tools@[k]@),
            decreases self.tools.len() - i,
        {
            tools.push(self.tools[i].to_json());
            i += 1;
        }
        assert(trees(tools@) =~= tool_trees(self@.tools));
        let mut f = Fields::new();
        f.put("request_id", Json::String(self.request_id.to_text()));
        f.put_text("agent_id", &self.agent_id);
        f.put_text("session_id", &self.session_id);
        f.put("messages", Json::Array(messages));
        f.put("tools", Json::Array(tools));
        f.put_text("tool_choice", &self.tool_choice);
        f.put("constraints", self.constraints.to_json());
        f.put_text("preferred_model", &self.preferred_model);
        f.put("metadata", self.metadata.to_json());
        f.put_tree("response_format", &self.response_format);
        f.into_object()
    }

    /// The request as compact JSON text.
    pub fn to_json_text(&self) -> (s: String)
        ensures
            s@ == crate::json_codec::compact_text(request_tree(self@)),
    {
        self.to_json().to_text()
    }
}

} // verus!
