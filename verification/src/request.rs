//! Operations as they arrive: one request unit, or a batch of them in order.

use std::collections::HashMap;
use vstd::prelude::*;
use vstd::utf8::decode_utf8;
use vstd::utf8::valid_utf8;

verus! {

/// `async_graphql::Variables`: the variable bindings of an operation, from
/// name to value. The gateway carries them and never looks inside.
#[verifier::external_type_specification]
#[verifier::external_body]
pub struct ExVariables(async_graphql::Variables);

/// `async_graphql::Name`: the name of a variable. `Variables` dereferences to
/// a map that is keyed by it, so the declaration of `Variables` rests on this
/// one.
#[verifier::external_type_specification]
#[verifier::external_body]
pub struct ExName(async_graphql::Name);

/// `serde_json::Error`: why a text is not the JSON that was asked for.
#[verifier::external_type_specification]
#[verifier::external_body]
pub struct ExJsonError(serde_json::Error);

/// One GraphQL request unit. Immutable after construction.
#[derive(Debug, PartialEq)]
pub struct Operation {
    pub query: String,
    pub operation_name: Option<String>,
    pub variables: async_graphql::Variables,
    pub extensions: HashMap<String, async_graphql::Value>,
}

/// The mathematical value of an [`Operation`].
pub struct OperationView {
    pub query: Seq<char>,
    pub operation_name: Option<Seq<char>>,
    pub variables: async_graphql::Variables,
    pub extensions: Map<String, async_graphql::Value>,
}

impl DeepView for Operation {
    type V = OperationView;

    open spec fn deep_view(&self) -> OperationView {
        OperationView {
            query: self.query@,
            operation_name: self.operation_name.deep_view(),
            variables: self.variables,
            extensions: self.extensions@,
        }
    }
}

/// Exactly one operation, or an ordered sequence of operations. The two are
/// told apart by the shape in which the request arrived, not by a count.
#[derive(Debug, PartialEq)]
pub enum BatchRequest {
    Single(Operation),
    Batch(Vec<Operation>),
}

/// The mathematical value of a [`BatchRequest`].
pub enum BatchRequestView {
    Single(OperationView),
    Batch(Seq<OperationView>),
}

impl DeepView for BatchRequest {
    type V = BatchRequestView;

    open spec fn deep_view(&self) -> BatchRequestView {
        match self {
            BatchRequest::Single(operation) => BatchRequestView::Single(operation.deep_view()),
            BatchRequest::Batch(operations) => BatchRequestView::Batch(operations.deep_view()),
        }
    }
}

impl BatchRequestView {
    /// The operations in order.
    pub open spec fn operations(self) -> Seq<OperationView> {
        match self {
            BatchRequestView::Single(operation) => seq![operation],
            BatchRequestView::Batch(operations) => operations,
        }
    }
}

/// The names that the variable bindings bind.
pub uninterp spec fn bound_names(variables: async_graphql::Variables) -> Set<Seq<char>>;

/// The request that a JSON text encodes, where it encodes one: a single
/// operation with the fields `query`, `operationName` and `variables`, or a
/// batch of such operations.
pub uninterp spec fn decoded_json(input: Seq<char>) -> Option<BatchRequestView>;

/// Why a request body gives no request.
#[derive(Debug, PartialEq, Eq)]
pub enum DecodeError {
    /// The body is not UTF-8.
    InvalidUtf8,
    /// The body is not the JSON of a request; with the decoder's message.
    InvalidJson { message: String },
}

/// Calls `Default::default` of `async_graphql::Variables`: the bindings that
/// bind no name.
#[verifier::external_body]
fn no_variables() -> (variables: async_graphql::Variables)
    ensures
        bound_names(variables) == Set::<Seq<char>>::empty(),
{
    async_graphql::Variables::default()
}

/// Calls `String::from_utf8`: the text that the bytes encode, where they are
/// valid UTF-8, and nothing where they are not.
#[verifier::external_body]
fn text_from_utf8(bytes: Vec<u8>) -> (text: Option<String>)
    ensures
        text is Some <==> valid_utf8(bytes@),
        text matches Some(decoded) ==> decoded@ == decode_utf8(bytes@),
{
    match String::from_utf8(bytes) {
        Ok(text) => Some(text),
        Err(_) => None,
    }
}

/// Calls `serde_json::from_str` for `async_graphql::BatchRequest` and moves
/// the query, the operation name, the variables and the extensions of each
/// request over, in order. The request is a function of the text alone.
#[verifier::external_body]
fn decode_json(input: &str) -> (decoded: Result<BatchRequest, serde_json::Error>)
    ensures
        match decoded {
            Ok(request) => decoded_json(input@) == Some(request.deep_view()),
            Err(_) => decoded_json(input@) is None,
        },
{
    let convert = |request: async_graphql::Request| Operation {
        query: request.query,
        operation_name: request.operation_name,
        variables: request.variables,
        extensions: request.extensions,
    };
    Ok(match serde_json::from_str::<async_graphql::BatchRequest>(input)? {
        async_graphql::BatchRequest::Single(request) => BatchRequest::Single(convert(request)),
        async_graphql::BatchRequest::Batch(requests) => BatchRequest::Batch(requests.into_iter().map(convert).collect()),
    })
}

/// Calls `to_string` of `serde_json::Error`: the decoder's message.
#[verifier::external_body]
fn json_error_message(error: &serde_json::Error) -> (message: String) {
    error.to_string()
}

impl Operation {
    /// The operation with this query text, no name, no variables and no
    /// extensions.
    pub fn new(query: String) -> (operation: Operation)
        ensures
            operation.query == query,
            operation.operation_name is None,
            bound_names(operation.variables) == Set::<Seq<char>>::empty(),
            operation.extensions@ == Map::<String, async_graphql::Value>::empty(),
    {
        Operation { query, operation_name: None, variables: no_variables(), extensions: HashMap::new() }
    }
}

impl BatchRequest {
    /// The number of operations.
    pub fn len(&self) -> (n: usize)
        ensures
            n == self.deep_view().operations().len(),
    {
        match self {
            BatchRequest::Single(_) => 1,
            BatchRequest::Batch(operations) => operations.len(),
        }
    }
}

/// Decodes a body as UTF-8 text.
pub fn decode_text(body: Vec<u8>) -> (text: Result<String, DecodeError>)
    ensures
        text is Ok <==> valid_utf8(body@),
        text matches Ok(decoded) ==> decoded@ == decode_utf8(body@),
        text matches Err(error) ==> error is InvalidUtf8,
{
    match text_from_utf8(body) {
        Some(text) => Ok(text),
        None => Err(DecodeError::InvalidUtf8),
    }
}

/// Decodes a JSON text as a request: a single operation or a batch, as the
/// text encodes it.
pub fn decode_json_request(input: &str) -> (request: Result<BatchRequest, DecodeError>)
    ensures
        match request {
            Ok(decoded) => decoded_json(input@) == Some(decoded.deep_view()),
            Err(error) => decoded_json(input@) is None && error is InvalidJson,
        },
{
    match decode_json(input) {
        Ok(request) => Ok(request),
        Err(error) => Err(DecodeError::InvalidJson { message: json_error_message(&error) }),
    }
}

/// Takes a whole text as the query of a single operation, with no name and no
/// variables.
pub fn decode_graphql_request(input: String) -> (request: BatchRequest)
    ensures
        request matches BatchRequest::Single(operation) && operation.query == input
            && operation.operation_name is None && bound_names(operation.variables) == Set::<
            Seq<char>,
        >::empty() && operation.extensions@ == Map::<String, async_graphql::Value>::empty(),
{
    BatchRequest::Single(Operation::new(input))
}

} // verus!
