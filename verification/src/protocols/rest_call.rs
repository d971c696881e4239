//! One call through the REST front door: who is let in, what is forwarded,
//! and what is answered.
//!
//! The front door reads the request and writes the answer. What lies between
//! is decided here: a caller is turned away before the body is read; a body
//! is normalized and either rejected or forwarded; and how forwarding ended
//! decides the answer.

use vstd::prelude::*;
use vstd::string::StringExecFns;
use crate::dispatch::{ForwardError, ForwardResponse, ForwardResponseView};
use crate::forward::{replay_record, Forwarding};
use crate::dispatch::DispatchView;
use crate::json::{Json, JsonTree};
use crate::json_codec::compact_text;
use crate::proto::proto_request;
use crate::protocols::rest::{normalize_text, normalized_text, IngressError};
use crate::registry::AdapterRegistryState;
use crate::request_id::RequestId;
use crate::router::routed;
use crate::text::opt_text;
use crate::wire::Fields;

verus! {

/// How many calls per second one client may make.
pub const CALLS_PER_SECOND: u32 = 50;

/// The key under which a client is counted: the address that was forwarded
/// for it, or the local address where none was.
pub fn client_key(forwarded_for: Option<&str>) -> (key: String)
    ensures
        key@ == match forwarded_for {
            Some(address) => address@,
            None => "127.0.0.1"@,
        },
{
    match forwarded_for {
        Some(address) => String::from_str(address),
        None => String::from_str("127.0.0.1"),
    }
}

/// The answer to a call that was served.
#[derive(Debug, PartialEq)]
pub struct RestCallResponse {
    pub request_id: String,
    pub adapter_id: String,
    pub json: String,
}

impl View for RestCallResponse {
    type V = ForwardResponseView;

    open spec fn view(&self) -> ForwardResponseView {
        ForwardResponseView {
            request_id: self.request_id@,
            adapter_id: self.adapter_id@,
            json: self.json@,
        }
    }
}

/// The answer to a served call as a JSON document.
pub open spec fn response_tree(r: ForwardResponseView) -> JsonTree {
    JsonTree::Object(
        Map::empty().insert("request_id"@, JsonTree::String(r.request_id)).insert(
            "adapter_id"@,
            JsonTree::String(r.adapter_id),
        ).insert("json"@, JsonTree::String(r.json)),
    )
}

impl RestCallResponse {
    /// The answer as a JSON document.
    pub fn to_json(&self) -> (j: Json)
        ensures
            j@ == response_tree(self@),
    {
        let mut f = Fields::new();
        f.put("request_id", Json::String(self.request_id.clone()));
        f.put("adapter_id", Json::String(self.adapter_id.clone()));
        f.put("json", Json::String(self.json.clone()));
        f.into_object()
    }
}

/// How a call ended.
#[derive(Debug, PartialEq)]
pub enum RestOutcome {
    /// The caller is not authorized.
    Unauthorized,
    /// The caller has made too many calls.
    RateLimited,
    /// The body has none of the accepted shapes.
    InvalidJson,
    /// The body carries no message.
    MessagesRequired,
    /// No adapter served the request.
    Unavailable,
    /// The request was served.
    Served(RestCallResponse),
}

/// The model of how a call ended.
pub enum RestOutcomeView {
    Unauthorized,
    RateLimited,
    InvalidJson,
    MessagesRequired,
    Unavailable,
    Served(ForwardResponseView),
}

impl View for RestOutcome {
    type V = RestOutcomeView;

    open spec fn view(&self) -> RestOutcomeView {
        match self {
            RestOutcome::Unauthorized => RestOutcomeView::Unauthorized,
            RestOutcome::RateLimited => RestOutcomeView::RateLimited,
            RestOutcome::InvalidJson => RestOutcomeView::InvalidJson,
            RestOutcome::MessagesRequired => RestOutcomeView::MessagesRequired,
            RestOutcome::Unavailable => RestOutcomeView::Unavailable,
            RestOutcome::Served(r) => RestOutcomeView::Served(r@),
        }
    }
}

impl RestOutcomeView {
    /// The HTTP status that answers the call.
    pub open spec fn status(self) -> u16 {
        match self {
            RestOutcomeView::Unauthorized => 401,
            RestOutcomeView::RateLimited => 429,
            RestOutcomeView::InvalidJson => 400,
            RestOutcomeView::MessagesRequired => 400,
            RestOutcomeView::Unavailable => 503,
            RestOutcomeView::Served(_) => 200,
        }
    }

    /// The status as the metrics label it is counted under.
    pub open spec fn label(self) -> Seq<char> {
        match self {
            RestOutcomeView::Unauthorized => "401"@,
            RestOutcomeView::RateLimited => "429"@,
            RestOutcomeView::InvalidJson => "400"@,
            RestOutcomeView::MessagesRequired => "400"@,
            RestOutcomeView::Unavailable => "503"@,
            RestOutcomeView::Served(_) => "200"@,
        }
    }

    /// The body of the answer: a short reason, or the served answer as
    /// compact JSON text.
    pub open spec fn body(self) -> Seq<char> {
        match self {
            RestOutcomeView::Unauthorized => "unauthorized"@,
            RestOutcomeView::RateLimited => "rate limited"@,
            RestOutcomeView::InvalidJson => "invalid json"@,
            RestOutcomeView::MessagesRequired => "messages required"@,
            RestOutcomeView::Unavailable => "no adapter available"@,
            RestOutcomeView::Served(r) => compact_text(response_tree(r)),
        }
    }
}

impl RestOutcome {
    /// The HTTP status that answers the call.
    pub fn status(&self) -> (code: u16)
        ensures
            code == self@.status(),
    {
        match self {
            RestOutcome::Unauthorized => 401,
            RestOutcome::RateLimited => 429,
            RestOutcome::InvalidJson => 400,
            RestOutcome::MessagesRequired => 400,
            RestOutcome::Unavailable => 503,
            RestOutcome::Served(_) => 200,
        }
    }

    /// The status as the metrics label it is counted under.
    pub fn label(&self) -> (label: &'static str)
        ensures
            label@ == self@.label(),
    {
        match self {
            RestOutcome::Unauthorized => "401",
            RestOutcome::RateLimited => "429",
            RestOutcome::InvalidJson => "400",
            RestOutcome::MessagesRequired => "400",
            RestOutcome::Unavailable => "503",
            RestOutcome::Served(_) => "200",
        }
    }

    /// The body of the answer.
    pub fn body(&self) -> (text: String)
        ensures
            text@ == self@.body(),
    {
        match self {
            RestOutcome::Unauthorized => String::from_str("unauthorized"),
            RestOutcome::RateLimited => String::from_str("rate limited"),
            RestOutcome::InvalidJson => String::from_str("invalid json"),
            RestOutcome::MessagesRequired => String::from_str("messages required"),
            RestOutcome::Unavailable => String::from_str("no adapter available"),
            RestOutcome::Served(r) => r.to_json().to_text(),
        }
    }

    /// Whether the body is JSON rather than plain text.
    pub fn is_json(&self) -> (r: bool)
        ensures
            r == (self@ is Served),
    {
        match self {
            RestOutcome::Served(_) => true,
            _ => false,
        }
    }
}

/// Decides whether a caller is let in, before the body is read. A caller
/// that is not authorized is turned away as such, whatever its rate; an
/// authorized caller over its rate is turned away as rate limited.
pub fn screen(authorized: bool, within_rate: bool) -> (r: Option<RestOutcome>)
    ensures
        !authorized ==> r == Some(RestOutcome::Unauthorized),
        authorized && !within_rate ==> r == Some(RestOutcome::RateLimited),
        authorized && within_rate ==> r is None,
{
    if !authorized {
        Some(RestOutcome::Unauthorized)
    } else if !within_rate {
        Some(RestOutcome::RateLimited)
    } else {
        None
    }
}

/// How a call ends whose body was turned away.
pub fn rejection(e: IngressError) -> (r: RestOutcome)
    ensures
        r == match e {
            IngressError::MalformedIngress => RestOutcome::InvalidJson,
            IngressError::ValidationFailed => RestOutcome::MessagesRequired,
        },
{
    match e {
        IngressError::MalformedIngress => RestOutcome::InvalidJson,
        IngressError::ValidationFailed => RestOutcome::MessagesRequired,
    }
}

/// How a call ends once forwarding has ended.
pub fn answer(result: Result<ForwardResponse, ForwardError>) -> (r: RestOutcome)
    ensures
        r@ == match result {
            Ok(response) => RestOutcomeView::Served(response@),
            Err(_) => RestOutcomeView::Unavailable,
        },
{
    match result {
        Ok(response) => RestOutcome::Served(
            RestCallResponse {
                request_id: response.request_id,
                adapter_id: response.adapter_id,
                json: response.json,
            },
        ),
        Err(_) => RestOutcome::Unavailable,
    }
}

/// What is to be done with the body of a call.
pub enum CallPlan {
    /// The body was turned away: the call ends at once, and nothing is
    /// recorded or sent.
    Reject(RestOutcome),
    /// The body was accepted and is to be forwarded.
    Forward(Forwarding),
}

/// Decides what is to be done with the body of a call. `fresh` is the
/// identifier that the request gets where the body brings none.
///
/// A body that cannot be normalized is rejected, for the reason that
/// normalizing gives. Any other body is forwarded as the request that
/// normalizing yields.
pub fn plan_call(registry: &AdapterRegistryState, body: &[u8], fresh: RequestId) -> (plan: CallPlan)
    ensures
        match normalized_text(body@, fresh) {
            Ok(req) => plan matches CallPlan::Forward(f) && opt_text(f.replay_line)
                == replay_record(registry.replay_enabled(), req) && f.request@ == proto_request(
                req,
            ) && f.dispatch@ == DispatchView::start(routed(registry.listing(), req.metadata)),
            Err(IngressError::MalformedIngress) => plan matches CallPlan::Reject(
                RestOutcome::InvalidJson,
            ),
            Err(IngressError::ValidationFailed) => plan matches CallPlan::Reject(
                RestOutcome::MessagesRequired,
            ),
        },
{
    match normalize_text(body, fresh) {
        Ok(req) => CallPlan::Forward(registry.forward(req)),
        Err(e) => CallPlan::Reject(rejection(e)),
    }
}

} // verus!
