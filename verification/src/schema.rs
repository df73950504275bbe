//! The schema as the gateway needs it: the resolvers of the root fields.

use crate::document::OperationType;
use crate::response::resolve_outcome_view;
use crate::response::ResolutionError;
use crate::response::ResolveInfo;
use crate::response::ResolveInfoView;
use crate::response::ResolveOutcome;
use crate::response::ResolveOutcomeView;
use crate::text::text_eq;
use vstd::prelude::*;
use vstd::string::StringExecFns;

verus! {

/// A schema: shared and read-only across requests. It resolves each root field
/// to its whole value, or says why it cannot. Resolution is a function of the
/// schema and the field alone.
pub trait Schema {
    /// What resolving the field gives. Unless a schema says otherwise, it has
    /// no field.
    open spec fn field_outcome(&self, info: ResolveInfoView) -> ResolveOutcomeView {
        Err(unknown_field(info.field_name))
    }

    fn resolve_field(&self, info: &ResolveInfo) -> (outcome: ResolveOutcome)
        ensures
            resolve_outcome_view(outcome) == self.field_outcome(info.deep_view()),
    ;
}

/// A root field with the value it always resolves to.
#[derive(Debug, PartialEq, Eq)]
pub struct RootField {
    pub name: String,
    pub value: async_graphql::Value,
}

/// A schema whose query root holds fixed values. It has no mutation root and no
/// subscription root.
#[derive(Debug, PartialEq, Eq)]
pub struct StaticSchema {
    pub fields: Vec<RootField>,
}

/// The message for a field that the root does not have.
pub open spec fn unknown_field(name: Seq<char>) -> Seq<char> {
    "Unknown field \""@ + name + "\""@
}

/// The position of the first field called `name` at or after `from`.
pub open spec fn field_from(fields: Seq<RootField>, name: Seq<char>, from: int) -> Option<int>
    decreases fields.len() - from,
{
    if from < 0 || from >= fields.len() {
        None
    } else if fields[from].name@ == name {
        Some(from)
    } else {
        field_from(fields, name, from + 1)
    }
}

/// Calls `clone` of `async_graphql::Value`, which gives an equal value.
#[verifier::external_body]
fn clone_value(value: &async_graphql::Value) -> (copy: async_graphql::Value)
    ensures
        copy == *value,
{
    value.clone()
}

impl StaticSchema {
    /// The schema without fields.
    pub fn new() -> (schema: StaticSchema)
        ensures
            schema.fields@.len() == 0,
    {
        StaticSchema { fields: Vec::new() }
    }

    /// Adds a query field. Of two fields with one name the earlier one is
    /// resolved.
    pub fn field(self, name: String, value: async_graphql::Value) -> (schema: StaticSchema)
        ensures
            schema.fields@ == self.fields@.push(RootField { name, value }),
    {
        let mut fields = self.fields;
        fields.push(RootField { name, value });
        StaticSchema { fields }
    }

    fn unknown(name: &str) -> (error: ResolutionError)
        ensures
            error.message@ == unknown_field(name@),
    {
        let mut message = String::from_str("Unknown field \"");
        message.append(name);
        message.append("\"");
        ResolutionError { message }
    }
}

impl Schema for StaticSchema {
    open spec fn field_outcome(&self, info: ResolveInfoView) -> ResolveOutcomeView {
        if info.parent_type == OperationType::Query {
            match field_from(self.fields@, info.field_name, 0) {
                Some(i) => Ok(self.fields@[i].value),
                None => Err(unknown_field(info.field_name)),
            }
        } else {
            Err(unknown_field(info.field_name))
        }
    }

    fn resolve_field(&self, info: &ResolveInfo) -> (outcome: ResolveOutcome) {
        if info.parent_type != OperationType::Query {
            return Err(StaticSchema::unknown(info.field_name.as_str()));
        }
        let mut i: usize = 0;
        while i < self.fields.len()
            invariant
                i <= self.fields.len(),
                info.parent_type == OperationType::Query,
                field_from(self.fields@, info.field_name@, 0) == field_from(
                    self.fields@,
                    info.field_name@,
                    i as int,
                ),
            decreases self.fields.len() - i,
        {
            if text_eq(self.fields[i].name.as_str(), info.field_name.as_str()) {
                assert(field_from(self.fields@, info.field_name@, i as int) == Some(i as int));
                return Ok(clone_value(&self.fields[i].value));
            }
            i += 1;
        }
        Err(StaticSchema::unknown(info.field_name.as_str()))
    }
}

} // verus!
