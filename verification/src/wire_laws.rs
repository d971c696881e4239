//! What holds between the wire form and the normalizer: a request that is
//! written out and read back is the request that was written.

use vstd::prelude::*;
use crate::canonical::{ConstraintsView, ContentPartView, MessageView, RequestView, ToolView};
use crate::decode::{
    all_texts, flag_field, items_field, opt_any_field, opt_number_field, opt_text_field,
    opt_u32_field, text_field, text_of, texts_field,
};
use crate::json::{field_of, JsonTree};
use crate::protocols::rest::{
    canonical_of, lowered_message, lowered_messages, lowered_parts, normalized,
    with_preferred_provider, CanonicalIngressView, IngressError, MessageInputView, PartInputView,
    RestIngressView,
};
use crate::protocols::shapes::{
    all_message_inputs, all_part_inputs, all_tools, canonical_ingress_of, constraints_field,
    constraints_of, content_field, ingress_of, legacy_payload_field, legacy_v0_of, legacy_v1_of,
    message_input_of, messages_field, metadata_field, metadata_of, part_input_of,
    request_id_field, role_field, string_values, tagged_part_of, tool_of, tools_field,
};
use crate::request_id::{lemma_request_id_round_trip, uuid_text, RequestId};
use crate::text::stamp;
use crate::wire::{
    constraints_tree, message_tree, message_trees, part_tree, part_trees, request_tree,
    text_trees, text_values, tool_tree, tool_trees,
};

verus! {

/// The field names and the tags of a content part.
proof fn lemma_part_names()
    ensures
        stamp("type"@) == (4nat, 't', 'e'),
        stamp("text"@) == (4nat, 't', 't'),
        stamp("url"@) == (3nat, 'u', 'l'),
        stamp("mime_type"@) == (9nat, 'm', 'e'),
        stamp("image"@) == (5nat, 'i', 'e'),
        stamp("audio"@) == (5nat, 'a', 'o'),
        stamp("file"@) == (4nat, 'f', 'e'),
{
    reveal_strlit("type");
    reveal_strlit("text");
    reveal_strlit("url");
    reveal_strlit("mime_type");
    reveal_strlit("image");
    reveal_strlit("audio");
    reveal_strlit("file");
}

/// The field names of a message and the names of the roles.
proof fn lemma_message_names()
    ensures
        stamp("role"@) == (4nat, 'r', 'e'),
        stamp("content"@) == (7nat, 'c', 't'),
        stamp("name"@) == (4nat, 'n', 'e'),
        stamp("tool_call_id"@) == (12nat, 't', 'd'),
        stamp("system"@) == (6nat, 's', 'm'),
        stamp("user"@) == (4nat, 'u', 'r'),
        stamp("assistant"@) == (9nat, 'a', 't'),
        stamp("tool"@) == (4nat, 't', 'l'),
{
    reveal_strlit("role");
    reveal_strlit("content");
    reveal_strlit("name");
    reveal_strlit("tool_call_id");
    reveal_strlit("system");
    reveal_strlit("user");
    reveal_strlit("assistant");
    reveal_strlit("tool");
}

/// The field names of a tool.
proof fn lemma_tool_names()
    ensures
        stamp("name"@) == (4nat, 'n', 'e'),
        stamp("description"@) == (11nat, 'd', 'n'),
        stamp("parameters_json_schema"@) == (22nat, 'p', 'a'),
        stamp("strict"@) == (6nat, 's', 't'),
{
    reveal_strlit("name");
    reveal_strlit("description");
    reveal_strlit("parameters_json_schema");
    reveal_strlit("strict");
}

/// The field names of the generation knobs.
proof fn lemma_constraint_names()
    ensures
        stamp("max_tokens"@) == (10nat, 'm', 's'),
        stamp("temperature"@) == (11nat, 't', 'e'),
        stamp("top_p"@) == (5nat, 't', 'p'),
        stamp("top_k"@) == (5nat, 't', 'k'),
        stamp("stop_sequences"@) == (14nat, 's', 's'),
        stamp("presence_penalty"@) == (16nat, 'p', 'y'),
        stamp("frequency_penalty"@) == (17nat, 'f', 'y'),
        stamp("reasoning_effort"@) == (16nat, 'r', 't'),
        stamp("stream"@) == (6nat, 's', 'm'),
{
    reveal_strlit("max_tokens");
    reveal_strlit("temperature");
    reveal_strlit("top_p");
    reveal_strlit("top_k");
    reveal_strlit("stop_sequences");
    reveal_strlit("presence_penalty");
    reveal_strlit("frequency_penalty");
    reveal_strlit("reasoning_effort");
    reveal_strlit("stream");
}

/// The field names of a request, in the current and in the legacy shapes.
proof fn lemma_request_names()
    ensures
        stamp("request_id"@) == (10nat, 'r', 'd'),
        stamp("agent_id"@) == (8nat, 'a', 'd'),
        stamp("session_id"@) == (10nat, 's', 'd'),
        stamp("messages"@) == (8nat, 'm', 's'),
        stamp("tools"@) == (5nat, 't', 's'),
        stamp("tool_choice"@) == (11nat, 't', 'e'),
        stamp("constraints"@) == (11nat, 'c', 's'),
        stamp("preferred_model"@) == (15nat, 'p', 'l'),
        stamp("metadata"@) == (8nat, 'm', 'a'),
        stamp("response_format"@) == (15nat, 'r', 't'),
        stamp("payload"@) == (7nat, 'p', 'd'),
{
    reveal_strlit("request_id");
    reveal_strlit("agent_id");
    reveal_strlit("session_id");
    reveal_strlit("messages");
    reveal_strlit("tools");
    reveal_strlit("tool_choice");
    reveal_strlit("constraints");
    reveal_strlit("preferred_model");
    reveal_strlit("metadata");
    reveal_strlit("response_format");
    reveal_strlit("payload");
}

/// A content part that is written out is read back as the same part, in the
/// canonical form.
pub proof fn lemma_part_round_trip(p: ContentPartView)
    ensures
        part_input_of(part_tree(p)) == Some(PartInputView::Canonical(p)),
{
    lemma_part_names();
    let t = part_tree(p);
    assert(field_of(t, "type"@) is Some);
    assert(tagged_part_of(t) == Some(p));
}

/// The written form of a message in which every part is in canonical form.
pub open spec fn written_message(m: MessageView) -> MessageInputView {
    MessageInputView {
        role: m.role,
        content: Seq::new(m.content.len(), |i: int| PartInputView::Canonical(m.content[i])),
        name: m.name,
        tool_call_id: m.tool_call_id,
    }
}

/// The written forms of a list of messages, in order.
pub open spec fn written_messages(messages: Seq<MessageView>) -> Seq<MessageInputView> {
    Seq::new(messages.len(), |i: int| written_message(messages[i]))
}

/// A message that is written out is read back in its written form, which
/// stands for the message itself.
pub proof fn lemma_message_round_trip(m: MessageView)
    ensures
        message_input_of(message_tree(m)) == Some(written_message(m)),
        lowered_message(written_message(m)) == m,
{
    lemma_message_names();
    let t = message_tree(m);
    let parts = part_trees(m.content);
    assert(role_field(t) == Some(m.role));
    assert(items_field(t, "content"@) == Some(parts));
    assert forall|i: int| 0 <= i < parts.len() implies part_input_of(#[trigger] parts[i]) == Some(
        PartInputView::Canonical(m.content[i]),
    ) by {
        lemma_part_round_trip(m.content[i]);
    }
    assert(all_part_inputs(parts)->0 =~= written_message(m).content);
    assert(content_field(t) == Some(written_message(m).content));
    assert(opt_text_field(t, "name"@) == Some(m.name));
    assert(opt_text_field(t, "tool_call_id"@) == Some(m.tool_call_id));
    assert(lowered_parts(written_message(m).content) =~= m.content);
}

/// Messages that are written out are read back in their written forms,
/// which stand for the messages themselves, in order.
pub proof fn lemma_messages_round_trip(messages: Seq<MessageView>)
    ensures
        all_message_inputs(message_trees(messages)) == Some(written_messages(messages)),
        lowered_messages(written_messages(messages)) == messages,
{
    let written = message_trees(messages);
    assert forall|i: int| 0 <= i < written.len() implies message_input_of(#[trigger] written[i])
        == Some(written_message(messages[i])) by {
        lemma_message_round_trip(messages[i]);
    }
    assert(all_message_inputs(written)->0 =~= written_messages(messages));
    assert forall|i: int| 0 <= i < messages.len() implies lowered_message(
        #[trigger] written_messages(messages)[i],
    ) == messages[i] by {
        lemma_message_round_trip(messages[i]);
    }
    assert(lowered_messages(written_messages(messages)) =~= messages);
}

/// A tool that is written out is read back as the same tool, unless its
/// schema is the null document, which reads back as no schema.
pub proof fn lemma_tool_round_trip(t: ToolView)
    requires
        t.parameters_json_schema != Some(JsonTree::Null),
    ensures
        tool_of(tool_tree(t)) == Some(t),
{
    lemma_tool_names();
    let tree = tool_tree(t);
    assert(text_field(tree, "name"@) == Some(t.name));
    assert(opt_text_field(tree, "description"@) == Some(t.description));
    assert(flag_field(tree, "strict"@) == Some(t.strict));
    assert(opt_any_field(tree, "parameters_json_schema"@) == t.parameters_json_schema);
}

/// Tools that are written out are read back as the same tools, in order.
pub proof fn lemma_tools_round_trip(tools: Seq<ToolView>)
    requires
        forall|i: int|
            0 <= i < tools.len() ==> (#[trigger] tools[i]).parameters_json_schema != Some(
                JsonTree::Null,
            ),
    ensures
        all_tools(tool_trees(tools)) == Some(tools),
{
    let written = tool_trees(tools);
    assert forall|i: int| 0 <= i < written.len() implies tool_of(#[trigger] written[i]) == Some(
        tools[i],
    ) by {
        lemma_tool_round_trip(tools[i]);
    }
    assert(all_tools(written)->0 =~= tools);
}

/// Generation knobs that are written out are read back as the same knobs.
pub proof fn lemma_constraints_round_trip(c: ConstraintsView)
    ensures
        constraints_of(constraints_tree(c)) == Some(c),
{
    lemma_constraint_names();
    let t = constraints_tree(c);
    let stops = text_trees(c.stop_sequences);
    assert(opt_u32_field(t, "max_tokens"@) == Some(c.max_tokens));
    assert(opt_number_field(t, "temperature"@) == Some(c.temperature));
    assert(opt_number_field(t, "top_p"@) == Some(c.top_p));
    assert(opt_u32_field(t, "top_k"@) == Some(c.top_k));
    assert(items_field(t, "stop_sequences"@) == Some(stops));
    assert forall|i: int| 0 <= i < stops.len() implies text_of(#[trigger] stops[i]) is Some by {}
    assert(all_texts(stops)->0 =~= c.stop_sequences);
    assert(texts_field(t, "stop_sequences"@) == Some(c.stop_sequences));
    assert(opt_number_field(t, "presence_penalty"@) == Some(c.presence_penalty));
    assert(opt_number_field(t, "frequency_penalty"@) == Some(c.frequency_penalty));
    assert(opt_text_field(t, "reasoning_effort"@) == Some(c.reasoning_effort));
    assert(flag_field(t, "stream"@) == Some(c.stream));
}

/// A mapping that is written out is read back as the same mapping.
pub proof fn lemma_metadata_round_trip(m: Map<Seq<char>, Seq<char>>)
    ensures
        metadata_of(JsonTree::Object(text_values(m))) == Some(m),
{
    assert(string_values(text_values(m)) =~= m);
}

/// Whether a request reads back as itself once written out: it carries a
/// message, the routing convenience leaves its metadata alone, and no schema
/// in it is the null document.
pub open spec fn reads_back(r: RequestView) -> bool {
    &&& r.messages.len() > 0
    &&& with_preferred_provider(r.metadata) == r.metadata
    &&& r.response_format != Some(JsonTree::Null)
    &&& forall|i: int|
        0 <= i < r.tools.len() ==> (#[trigger] r.tools[i]).parameters_json_schema != Some(
            JsonTree::Null,
        )
}

/// The request in the current shape that the wire form of a request is read
/// as.
pub open spec fn written_request(r: RequestView) -> CanonicalIngressView {
    CanonicalIngressView {
        request_id: Some(r.request_id),
        agent_id: r.agent_id,
        session_id: r.session_id,
        messages: written_messages(r.messages),
        tools: r.tools,
        tool_choice: r.tool_choice,
        constraints: Some(r.constraints),
        preferred_model: r.preferred_model,
        metadata: r.metadata,
        response_format: r.response_format,
    }
}

/// The wire form of a request has the current shape and none of the legacy
/// shapes, and is read as the written form of the request.
pub proof fn lemma_wire_form_is_current_shape(r: RequestView)
    requires
        r.response_format != Some(JsonTree::Null),
        forall|i: int|
            0 <= i < r.tools.len() ==> (#[trigger] r.tools[i]).parameters_json_schema != Some(
                JsonTree::Null,
            ),
    ensures
        ingress_of(request_tree(r)) == Some(RestIngressView::V2(written_request(r))),
{
    lemma_request_names();
    let t = request_tree(r);
    assert(field_of(t, "payload"@) is None);
    assert(legacy_v0_of(t) is None);
    assert(legacy_payload_field(t) is None);
    assert(legacy_v1_of(t) is None);
    assert(request_id_field(t) == Some(Some(r.request_id))) by {
        lemma_request_id_round_trip(r.request_id);
        assert(field_of(t, "request_id"@) == Some(JsonTree::String(uuid_text(r.request_id.value))));
    }
    assert(opt_text_field(t, "agent_id"@) == Some(r.agent_id));
    assert(opt_text_field(t, "session_id"@) == Some(r.session_id));
    assert(messages_field(t) == Some(written_messages(r.messages))) by {
        assert(items_field(t, "messages"@) == Some(message_trees(r.messages)));
        lemma_messages_round_trip(r.messages);
    }
    assert(tools_field(t) == Some(r.tools)) by {
        assert(items_field(t, "tools"@) == Some(tool_trees(r.tools)));
        lemma_tools_round_trip(r.tools);
    }
    assert(opt_text_field(t, "tool_choice"@) == Some(r.tool_choice));
    assert(constraints_field(t) == Some(Some(r.constraints))) by {
        assert(field_of(t, "constraints"@) == Some(constraints_tree(r.constraints)));
        lemma_constraints_round_trip(r.constraints);
    }
    assert(opt_text_field(t, "preferred_model"@) == Some(r.preferred_model));
    assert(metadata_field(t) == Some(r.metadata)) by {
        assert(field_of(t, "metadata"@) == Some(JsonTree::Object(text_values(r.metadata))));
        lemma_metadata_round_trip(r.metadata);
    }
    assert(opt_any_field(t, "response_format"@) == r.response_format);
    assert(canonical_ingress_of(t) == Some(written_request(r)));
}

/// Writing a request out and normalizing what was written yields the request
/// itself, field for field, whatever identifier is offered as a fresh one.
///
/// This holds of every request that carries a message, whose metadata the
/// routing convenience leaves alone, and in which no schema is the null
/// document.
pub proof fn lemma_wire_round_trip(r: RequestView, fresh: RequestId)
    requires
        reads_back(r),
    ensures
        normalized(request_tree(r), fresh) == (Ok::<RequestView, IngressError>(r)),
{
    lemma_wire_form_is_current_shape(r);
    lemma_messages_round_trip(r.messages);
    let lowered = canonical_of(RestIngressView::V2(written_request(r)), fresh);
    assert(lowered == r);
}

/// Whatever normalizing yields reads back as itself: it carries a message,
/// the routing convenience has nothing left to do on it, and it holds no null
/// schema.
pub proof fn lemma_normalized_reads_back(t: JsonTree, fresh: RequestId)
    ensures
        normalized(t, fresh) matches Ok(r) ==> reads_back(r),
{
    if let Ok(r) = normalized(t, fresh) {
        let ingress = ingress_of(t)->0;
        let lowered = canonical_of(ingress, fresh);
        assert(with_preferred_provider(r.metadata) == r.metadata) by {
            assert(r.metadata == with_preferred_provider(lowered.metadata));
            assert(with_preferred_provider(r.metadata) =~= r.metadata);
        }
        match ingress {
            RestIngressView::V2(v) => {
                let items = items_field(t, "tools"@)->0;
                assert(r.tools == all_tools(items)->0);
                assert forall|i: int| 0 <= i < r.tools.len() implies (
                #[trigger] r.tools[i]).parameters_json_schema != Some(JsonTree::Null) by {
                    assert(r.tools[i] == tool_of(items[i])->0);
                }
            },
            _ => {},
        }
    }
}

/// Normalizing is settled after one pass: writing out what it yielded and
/// normalizing that again yields the same request, whatever identifier is
/// offered as a fresh one the second time.
pub proof fn lemma_normalizing_again_changes_nothing(t: JsonTree, fresh: RequestId, again: RequestId)
    ensures
        normalized(t, fresh) matches Ok(r) ==> normalized(request_tree(r), again) == normalized(
            t,
            fresh,
        ),
{
    if let Ok(r) = normalized(t, fresh) {
        lemma_normalized_reads_back(t, fresh);
        lemma_wire_round_trip(r, again);
    }
}

} // verus!
