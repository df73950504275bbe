//! What executing one operation gives: the data, field by field, and the errors.

use crate::document::OperationType;
use crate::error::ServerError;
use crate::error::ServerErrorView;
use vstd::prelude::*;

verus! {

/// `async_graphql::Value`: a resolved GraphQL value. The gateway carries such
/// values from the resolvers to the response and never looks inside.
#[verifier::external_type_specification]
#[verifier::external_body]
pub struct ExValue(async_graphql::Value);

/// One field of the data: the key under which the response holds it, and its
/// value. A field whose resolution failed holds no value, which the response
/// shows as `null`.
#[derive(Debug, PartialEq, Eq)]
pub struct FieldEntry {
    pub key: String,
    pub value: Option<async_graphql::Value>,
}

/// The result of one operation. Its data mirror the selection set in order,
/// one entry for each response key; an operation that could not be executed at
/// all has no data.
#[derive(Debug, PartialEq, Eq)]
pub struct ExecutionResult {
    pub data: Option<Vec<FieldEntry>>,
    pub errors: Vec<ServerError>,
}

/// The mathematical value of a [`FieldEntry`].
pub struct FieldEntryView {
    pub key: Seq<char>,
    pub value: Option<async_graphql::Value>,
}

/// The mathematical value of an [`ExecutionResult`].
pub struct ExecutionResultView {
    pub data: Option<Seq<FieldEntryView>>,
    pub errors: Seq<ServerErrorView>,
}

impl DeepView for FieldEntry {
    type V = FieldEntryView;

    open spec fn deep_view(&self) -> FieldEntryView {
        FieldEntryView { key: self.key@, value: self.value }
    }
}

impl DeepView for ExecutionResult {
    type V = ExecutionResultView;

    open spec fn deep_view(&self) -> ExecutionResultView {
        ExecutionResultView { data: self.data.deep_view(), errors: self.errors.deep_view() }
    }
}

/// Whether the data hold an entry under `key`.
pub open spec fn has_key(data: Seq<FieldEntryView>, key: Seq<char>) -> bool {
    exists|i: int| 0 <= i < data.len() && (#[trigger] data[i]).key == key
}

/// Whether the data are a mapping: no two entries share a key.
pub open spec fn has_unique_keys(data: Seq<FieldEntryView>) -> bool {
    forall|i: int, j: int| 0 <= i < j < data.len() ==> (#[trigger] data[i]).key != (#[trigger] data[j]).key
}

/// Whether the data of a result, where it has data, are a mapping.
pub open spec fn is_mapping(result: ExecutionResultView) -> bool {
    result.data matches Some(data) ==> has_unique_keys(data)
}

/// The results of a request, in the shape in which the request arrived: one
/// result for a single operation, a sequence for a batch, whatever its length.
#[derive(Debug, PartialEq, Eq)]
pub enum BatchResponse {
    Single(ExecutionResult),
    Batch(Vec<ExecutionResult>),
}

/// The mathematical value of a [`BatchResponse`].
pub enum BatchResponseView {
    Single(ExecutionResultView),
    Batch(Seq<ExecutionResultView>),
}

impl DeepView for BatchResponse {
    type V = BatchResponseView;

    open spec fn deep_view(&self) -> BatchResponseView {
        match self {
            BatchResponse::Single(result) => BatchResponseView::Single(result.deep_view()),
            BatchResponse::Batch(results) => BatchResponseView::Batch(results.deep_view()),
        }
    }
}

impl BatchResponseView {
    /// The results in order.
    pub open spec fn results(self) -> Seq<ExecutionResultView> {
        match self {
            BatchResponseView::Single(result) => seq![result],
            BatchResponseView::Batch(results) => results,
        }
    }
}

/// What a field resolution is told: the kind of the root operation whose field
/// it is, the field's name, and the key under which the response will hold it.
#[derive(Debug, PartialEq, Eq)]
pub struct ResolveInfo {
    pub parent_type: OperationType,
    pub field_name: String,
    pub response_key: String,
}

/// The mathematical value of a [`ResolveInfo`].
pub struct ResolveInfoView {
    pub parent_type: OperationType,
    pub field_name: Seq<char>,
    pub response_key: Seq<char>,
}

impl DeepView for ResolveInfo {
    type V = ResolveInfoView;

    open spec fn deep_view(&self) -> ResolveInfoView {
        ResolveInfoView {
            parent_type: self.parent_type,
            field_name: self.field_name@,
            response_key: self.response_key@,
        }
    }
}

/// Why a field could not be resolved.
#[derive(Debug, PartialEq, Eq)]
pub struct ResolutionError {
    pub message: String,
}

/// What resolving a field gives: its value, or the reason there is none.
pub type ResolveOutcome = Result<async_graphql::Value, ResolutionError>;

/// The mathematical value of a [`ResolveOutcome`]: the value, or the error's
/// message.
pub type ResolveOutcomeView = Result<async_graphql::Value, Seq<char>>;

/// The mathematical value of a resolve outcome.
pub open spec fn resolve_outcome_view(outcome: ResolveOutcome) -> ResolveOutcomeView {
    match outcome {
        Ok(value) => Ok(value),
        Err(error) => Err(error.message@),
    }
}

} // verus!
