//! The GraphQL front door over HTTP: what it does with each method, and the
//! request that a POST carries.

use vstd::prelude::*;
use vstd::string::StringExecFns;
use crate::decode::{opt_text_field, read_opt_text_field, read_text_field, text_field};
use crate::json::{field_of, Json, JsonTree};
use crate::json_codec::parsed_text;
use crate::text::{opt_text, str_eq};

verus! {

/// What the front door does with a request.
#[derive(Clone, Copy, Debug, PartialEq, Eq, Structural)]
pub enum GraphqlAction {
    /// Says how the endpoint is used.
    Describe,
    /// Runs the operation that the body carries.
    Execute,
    /// Turns the request away.
    NotAllowed,
}

/// What the front door does with a request of the given method.
pub open spec fn action_for(method: Seq<char>) -> GraphqlAction {
    if method == "GET"@ {
        GraphqlAction::Describe
    } else if method == "POST"@ {
        GraphqlAction::Execute
    } else {
        GraphqlAction::NotAllowed
    }
}

/// Decides what the front door does with a request of the given method.
pub fn action_of(method: &str) -> (a: GraphqlAction)
    ensures
        a == action_for(method@),
{
    if str_eq(method, "GET") {
        GraphqlAction::Describe
    } else if str_eq(method, "POST") {
        GraphqlAction::Execute
    } else {
        GraphqlAction::NotAllowed
    }
}

/// How a request to the front door ended.
#[derive(Clone, Copy, Debug, PartialEq, Eq, Structural)]
pub enum GraphqlOutcome {
    /// The use of the endpoint was described.
    Described,
    /// The body carries no GraphQL request.
    InvalidRequest,
    /// The operation was run; what it yielded is the body of the answer.
    Executed,
    /// The method is not allowed.
    MethodNotAllowed,
}

impl GraphqlOutcome {
    /// The HTTP status that answers the request.
    pub open spec fn status_of(self) -> u16 {
        match self {
            GraphqlOutcome::Described => 200,
            GraphqlOutcome::InvalidRequest => 400,
            GraphqlOutcome::Executed => 200,
            GraphqlOutcome::MethodNotAllowed => 405,
        }
    }

    /// The text that answers the request, where the outcome fixes it.
    pub open spec fn text_of(self) -> Option<Seq<char>> {
        match self {
            GraphqlOutcome::Described => Some(
                "GraphQL endpoint. Send POST /graphql with {query, variables, operationName}."@,
            ),
            GraphqlOutcome::InvalidRequest => Some("invalid graphql http request"@),
            GraphqlOutcome::Executed => None,
            GraphqlOutcome::MethodNotAllowed => Some("method not allowed"@),
        }
    }

    /// The HTTP status that answers the request.
    pub fn status(&self) -> (code: u16)
        ensures
            code == self.status_of(),
    {
        match self {
            GraphqlOutcome::Described => 200,
            GraphqlOutcome::InvalidRequest => 400,
            GraphqlOutcome::Executed => 200,
            GraphqlOutcome::MethodNotAllowed => 405,
        }
    }

    /// The text that answers the request, where the outcome fixes it.
    pub fn text(&self) -> (t: Option<String>)
        ensures
            opt_text(t) == self.text_of(),
    {
        match self {
            GraphqlOutcome::Described => Some(
                String::from_str(
                    "GraphQL endpoint. Send POST /graphql with {query, variables, operationName}.",
                ),
            ),
            GraphqlOutcome::InvalidRequest => Some(String::from_str("invalid graphql http request")),
            GraphqlOutcome::Executed => None,
            GraphqlOutcome::MethodNotAllowed => Some(String::from_str("method not allowed")),
        }
    }
}

/// The GraphQL request that the body of a POST carries.
#[derive(Debug, PartialEq)]
pub struct HttpGraphQLRequest {
    pub query: String,
    /// The variables of the operation; null where none are given.
    pub variables: Json,
    pub operation_name: Option<String>,
}

/// The model of a GraphQL request over HTTP.
pub struct HttpGraphQLView {
    pub query: Seq<char>,
    pub variables: JsonTree,
    pub operation_name: Option<Seq<char>>,
}

impl View for HttpGraphQLRequest {
    type V = HttpGraphQLView;

    open spec fn view(&self) -> HttpGraphQLView {
        HttpGraphQLView {
            query: self.query@,
            variables: self.variables@,
            operation_name: opt_text(self.operation_name),
        }
    }
}

/// The GraphQL request that a document holds: the `query` is required, the
/// `variables` are null where missing, and `operationName` may be missing or
/// null.
pub open spec fn graphql_request_of(t: JsonTree) -> Option<HttpGraphQLView> {
    match (text_field(t, "query"@), opt_text_field(t, "operationName"@)) {
        (Some(query), Some(operation_name)) => Some(
            HttpGraphQLView {
                query,
                variables: match field_of(t, "variables"@) {
                    Some(v) => v,
                    None => JsonTree::Null,
                },
                operation_name,
            },
        ),
        _ => None,
    }
}

/// The GraphQL request that the text of a body holds.
pub open spec fn graphql_request_in(body: Seq<u8>) -> Option<HttpGraphQLView> {
    match parsed_text(body) {
        Some(t) => graphql_request_of(t),
        None => None,
    }
}

impl HttpGraphQLRequest {
    /// Reads the GraphQL request that a document holds.
    pub fn from_json(t: &Json) -> (r: Option<HttpGraphQLRequest>)
        ensures
            match r {
                Some(request) => graphql_request_of(t@) == Some(request@),
                None => graphql_request_of(t@) is None,
            },
    {
        match (read_text_field(t, "query"), read_opt_text_field(t, "operationName")) {
            (Some(query), Some(operation_name)) => {
                let variables = match t.field("variables") {
                    Some(v) => v.clone(),
                    None => Json::Null,
                };
                Some(HttpGraphQLRequest { query, variables, operation_name })
            },
            _ => None,
        }
    }

    /// Reads the GraphQL request that the text of a body holds.
    pub fn from_text(body: &[u8]) -> (r: Option<HttpGraphQLRequest>)
        ensures
            match r {
                Some(request) => graphql_request_in(body@) == Some(request@),
                None => graphql_request_in(body@) is None,
            },
    {
        match Json::parse(body) {
            Some(t) => HttpGraphQLRequest::from_json(&t),
            None => None,
        }
    }

    /// Whether variables are to be handed to the operation: only where they
    /// are not null.
    pub fn has_variables(&self) -> (r: bool)
        ensures
            r == !(self@.variables is Null),
    {
        match &self.variables {
            Json::Null => false,
            _ => true,
        }
    }
}

} // verus!
