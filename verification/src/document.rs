//! Parsed GraphQL documents, as far as the gateway reads them: the operations,
//! their kinds and their top-level selections.

use crate::text::text_eq;
use vstd::prelude::*;
use vstd::string::StringExecFns;

verus! {

/// The kind of an operation.
#[derive(Clone, Copy, Debug, PartialEq, Eq, Structural)]
pub enum OperationType {
    Query,
    Mutation,
    Subscription,
}

/// One entry of a selection set. Of fragments only their presence is kept.
#[derive(Debug, PartialEq, Eq)]
pub enum Selection {
    Field { alias: Option<String>, name: String },
    FragmentSpread,
    InlineFragment,
}

/// One operation of a document with its top-level selection set, in source order.
#[derive(Debug, PartialEq, Eq)]
pub struct DocumentOperation {
    pub name: Option<String>,
    pub ty: OperationType,
    pub selections: Vec<Selection>,
}

/// A document after parsing. Read-only once produced.
#[derive(Debug, PartialEq, Eq)]
pub struct ParsedDocument {
    pub operations: Vec<DocumentOperation>,
    /// The text that stands for the document where it is reported. Whoever
    /// produces the document renders it.
    pub rendering: String,
}

/// A place in a query text, counted from one.
#[derive(Clone, Copy, Debug, PartialEq, Eq, Structural)]
pub struct SourceLocation {
    pub line: usize,
    pub column: usize,
}

/// Why a query text is no document.
#[derive(Debug, PartialEq, Eq)]
pub struct ParseError {
    pub message: String,
    pub locations: Vec<SourceLocation>,
}

/// The mathematical value of a [`Selection`].
pub enum SelectionView {
    Field { alias: Option<Seq<char>>, name: Seq<char> },
    FragmentSpread,
    InlineFragment,
}

/// The mathematical value of a [`DocumentOperation`].
pub struct DocumentOperationView {
    pub name: Option<Seq<char>>,
    pub ty: OperationType,
    pub selections: Seq<SelectionView>,
}

/// The mathematical value of a [`ParsedDocument`].
pub struct DocumentView {
    pub operations: Seq<DocumentOperationView>,
    pub rendering: Seq<char>,
}

/// The mathematical value of a [`ParseError`].
pub struct ParseErrorView {
    pub message: Seq<char>,
    pub locations: Seq<SourceLocation>,
}

impl DeepView for Selection {
    type V = SelectionView;

    open spec fn deep_view(&self) -> SelectionView {
        match self {
            Selection::Field { alias, name } => SelectionView::Field {
                alias: alias.deep_view(),
                name: name@,
            },
            Selection::FragmentSpread => SelectionView::FragmentSpread,
            Selection::InlineFragment => SelectionView::InlineFragment,
        }
    }
}

impl DeepView for DocumentOperation {
    type V = DocumentOperationView;

    open spec fn deep_view(&self) -> DocumentOperationView {
        DocumentOperationView {
            name: self.name.deep_view(),
            ty: self.ty,
            selections: self.selections.deep_view(),
        }
    }
}

impl DeepView for ParsedDocument {
    type V = DocumentView;

    open spec fn deep_view(&self) -> DocumentView {
        DocumentView { operations: self.operations.deep_view(), rendering: self.rendering@ }
    }
}

impl DeepView for ParseError {
    type V = ParseErrorView;

    open spec fn deep_view(&self) -> ParseErrorView {
        ParseErrorView { message: self.message@, locations: self.locations@ }
    }
}

/// What parsing a query text gives: the document, or the reason there is none.
pub type ParseOutcome = Result<ParsedDocument, ParseError>;

/// The mathematical value of a [`ParseOutcome`].
pub type ParseOutcomeView = Result<DocumentView, ParseErrorView>;

/// The mathematical value of a parse outcome.
pub open spec fn parse_outcome_view(outcome: ParseOutcome) -> ParseOutcomeView {
    match outcome {
        Ok(document) => Ok(document.deep_view()),
        Err(error) => Err(error.deep_view()),
    }
}

/// The name of the field that asks for the schema itself.
pub open spec fn schema_field() -> Seq<char> {
    "__schema"@
}

/// Whether a selection is the field `__schema`, whatever its alias.
pub open spec fn is_schema_field(selection: SelectionView) -> bool {
    selection matches SelectionView::Field { name, .. } && name == schema_field()
}

/// Whether some top-level selection of the operation is the field `__schema`.
pub open spec fn selects_schema(operation: DocumentOperationView) -> bool {
    exists|j: int| 0 <= j < operation.selections.len() && is_schema_field(#[trigger] operation.selections[j])
}

/// Whether some query operation of the document selects `__schema` at top level.
pub open spec fn is_introspection(document: DocumentView) -> bool {
    exists|i: int|
        0 <= i < document.operations.len() && (#[trigger] document.operations[i]).ty == OperationType::Query
            && selects_schema(document.operations[i])
}

impl Selection {
    /// Whether this selection is the field `__schema`.
    pub fn is_schema_field(&self) -> (found: bool)
        ensures
            found == is_schema_field(self.deep_view()),
    {
        match self {
            Selection::Field { alias: _, name } => text_eq(name.as_str(), "__schema"),
            Selection::FragmentSpread => false,
            Selection::InlineFragment => false,
        }
    }
}

impl DocumentOperation {
    /// Whether some top-level selection is the field `__schema`.
    pub fn selects_schema(&self) -> (found: bool)
        ensures
            found == selects_schema(self.deep_view()),
    {
        let mut j: usize = 0;
        while j < self.selections.len()
            invariant
                j <= self.selections.len(),
                forall|k: int| 0 <= k < j ==> !is_schema_field(#[trigger] self.deep_view().selections[k]),
            decreases self.selections.len() - j,
        {
            if self.selections[j].is_schema_field() {
                assert(is_schema_field(self.deep_view().selections[j as int]));
                return true;
            }
            j += 1;
        }
        false
    }
}

impl ParsedDocument {
    /// Whether the document is an introspection query: some query operation
    /// selects `__schema` at top level. Mutations and subscriptions do not count,
    /// nor do selections below the top level.
    pub fn is_introspection(&self) -> (found: bool)
        ensures
            found == is_introspection(self.deep_view()),
    {
        let mut i: usize = 0;
        while i < self.operations.len()
            invariant
                i <= self.operations.len(),
                forall|k: int|
                    0 <= k < i ==> !((#[trigger] self.deep_view().operations[k]).ty == OperationType::Query
                        && selects_schema(self.deep_view().operations[k])),
            decreases self.operations.len() - i,
        {
            let operation = &self.operations[i];
            assert(self.deep_view().operations[i as int] == operation.deep_view());
            if operation.ty == OperationType::Query && operation.selects_schema() {
                return true;
            }
            i += 1;
        }
        false
    }
}

/// An operation as the parser holds it, under the name the document gives it.
pub struct NamedOperation {
    pub name: Option<String>,
    pub definition: async_graphql::parser::types::OperationDefinition,
}

/// `async_graphql::parser::types::OperationDefinition`, carried from the parser
/// to the functions that read it and never read in between.
#[verifier::external_type_specification]
#[verifier::external_body]
pub struct ExOperationDefinition(async_graphql::parser::types::OperationDefinition);

/// `async_graphql::parser::Error`: why the parser refused a text.
#[verifier::external_type_specification]
#[verifier::external_body]
pub struct ExParserError(async_graphql::parser::Error);

/// The kind that the parser's operation holds in its field `ty`.
pub uninterp spec fn definition_kind(definition: async_graphql::parser::types::OperationDefinition) -> OperationType;

/// The top-level selections that the parser's operation holds in its field
/// `selection_set`, in source order.
pub uninterp spec fn definition_selections(
    definition: async_graphql::parser::types::OperationDefinition,
) -> Seq<SelectionView>;

/// The message of the parser's error.
pub uninterp spec fn parser_message(error: async_graphql::parser::Error) -> Seq<char>;

/// The places that the parser's error points at, most important first.
pub uninterp spec fn parser_positions(error: async_graphql::parser::Error) -> Seq<SourceLocation>;

/// The names of the operations that the parser finds in a text, where it
/// accepts the text; no name stands for the operation without one.
pub uninterp spec fn parsed_names(query: Seq<char>) -> Set<Option<Seq<char>>>;

/// The operation that the parser finds in a text under a name, or without a
/// name: its name, its kind and its top-level selections.
pub uninterp spec fn parsed_operation(query: Seq<char>, name: Option<Seq<char>>) -> Option<
    DocumentOperationView,
>;

/// What the parser gives for a text: the operations it found, or its error.
pub type ParserResult = Result<Vec<NamedOperation>, async_graphql::parser::Error>;

/// Whether names are those of a document of the parser: there is at least one
/// operation, no two operations share a name, and an operation without a name
/// stands alone.
pub open spec fn are_document_names(names: Seq<Option<Seq<char>>>) -> bool {
    &&& names.len() >= 1
    &&& forall|i: int, j: int| 0 <= i < j < names.len() ==> names[i] != names[j]
    &&& forall|i: int| 0 <= i < names.len() && names[i] is None ==> names.len() == 1
}

/// The names of the operations of a document, in order.
pub open spec fn operation_names(document: DocumentView) -> Seq<Option<Seq<char>>> {
    document.operations.map_values(|operation: DocumentOperationView| operation.name)
}

/// Whether a parse outcome is one that the parser can give: any error, or a
/// document whose operations are named as the parser names them.
pub open spec fn is_parser_outcome(outcome: ParseOutcomeView) -> bool {
    outcome matches Ok(document) ==> are_document_names(operation_names(document))
}

/// The names under which the parser handed its operations out, in order.
pub open spec fn found_names(found: Seq<NamedOperation>) -> Seq<Option<Seq<char>>> {
    found.map_values(|operation: NamedOperation| operation.name.deep_view())
}

/// Whether a result is one that the parser can give: any error, or operations
/// that are named as the parser names them.
pub open spec fn is_parser_result(parsed: ParserResult) -> bool {
    parsed matches Ok(found) ==> are_document_names(found_names(found@))
}

/// The operation of a document that one operation of the parser is read as:
/// its name, its kind and its top-level selections.
pub open spec fn operation_read(operation: NamedOperation) -> DocumentOperationView {
    DocumentOperationView {
        name: operation.name.deep_view(),
        ty: definition_kind(operation.definition),
        selections: definition_selections(operation.definition),
    }
}

/// The parse outcome that a result of the parser is read as. Operations are
/// read one for one, in the order in which the parser handed them out, and the
/// document is rendered as `rendering`. An error keeps its message and its
/// positions.
pub open spec fn interpreted(parsed: ParserResult, rendering: Seq<char>) -> ParseOutcomeView {
    match parsed {
        Ok(found) => Ok(
            DocumentView {
                operations: found@.map_values(|operation: NamedOperation| operation_read(operation)),
                rendering,
            },
        ),
        Err(error) => Err(ParseErrorView { message: parser_message(error), locations: parser_positions(error) }),
    }
}

/// Whether a result is one that the parser can give for `query`: any error,
/// or exactly the operations that the text holds, each under its name. Whether
/// the parser accepts a text, and with which message it refuses one, is not a
/// matter of the text alone: the parser also refuses where the stack runs
/// short.
pub open spec fn is_result_for(query: Seq<char>, parsed: ParserResult) -> bool {
    &&& is_parser_result(parsed)
    &&& match parsed {
        Ok(found) => {
            &&& forall|i: int|
                0 <= i < found@.len() ==> parsed_operation(query, (#[trigger] found@[i]).name.deep_view())
                    == Some(operation_read(found@[i]))
            &&& found_names(found@).to_set() == parsed_names(query)
        },
        Err(_) => true,
    }
}

/// Whether an outcome is a parse of `query`: any error, or a document that is
/// rendered as the text itself and holds exactly the operations that the text
/// holds, each under its name. The text does not fix the order of several
/// named operations.
pub open spec fn is_parse_of(query: Seq<char>, outcome: ParseOutcomeView) -> bool {
    &&& is_parser_outcome(outcome)
    &&& match outcome {
        Ok(document) => {
            &&& document.rendering == query
            &&& forall|i: int|
                0 <= i < document.operations.len() ==> parsed_operation(
                    query,
                    (#[trigger] document.operations[i]).name,
                ) == Some(document.operations[i])
            &&& operation_names(document).to_set() == parsed_names(query)
        },
        Err(_) => true,
    }
}

/// Calls `async_graphql::parser::parse_query` and hands out the document's
/// operations, each with its name where it has one. The parser gives a
/// document only where it found an operation; it refuses a second operation
/// of one name, and any other operation beside one without a name. Where it
/// gives a document, the names of its operations and the operation under each
/// name are functions of the text alone. Nothing is claimed of when the
/// parser accepts a text nor of its message: it also refuses where the stack
/// runs short. Nothing is claimed of the order of several named operations
/// nor of the positions of an error: the parser fixes neither.
#[verifier::external_body]
fn parse_with_parser(query: &str) -> (parsed: ParserResult)
    ensures
        is_parser_result(parsed),
        parsed matches Ok(found) ==> forall|i: int|
            0 <= i < found@.len() ==> parsed_operation(query@, (#[trigger] found@[i]).name.deep_view()) == Some(
                operation_read(found@[i]),
            ),
        parsed matches Ok(found) ==> found_names(found@).to_set() == parsed_names(query@),
{
    let document = async_graphql::parser::parse_query(query)?;
    let operations = document.operations.iter().map(|(name, operation)| NamedOperation {
        name: name.map(|name| name.to_string()),
        definition: operation.node.clone(),
    });
    Ok(operations.collect())
}

/// Calls `to_string` of the parser's error: its message, a function of the
/// error alone.
#[verifier::external_body]
fn parser_error_message(error: &async_graphql::parser::Error) -> (message: String)
    ensures
        message@ == parser_message(*error),
{
    error.to_string()
}

/// Calls `positions` of the parser's error and hands the places out in the
/// order in which the error gives them, each as line and column.
#[verifier::external_body]
fn parser_error_positions(error: &async_graphql::parser::Error) -> (locations: Vec<SourceLocation>)
    ensures
        locations@ == parser_positions(*error),
{
    error.positions().map(|pos| SourceLocation { line: pos.line, column: pos.column }).collect()
}

/// Reads the field `ty` of the parser's operation, variant for variant.
#[verifier::external_body]
fn operation_kind(definition: &async_graphql::parser::types::OperationDefinition) -> (ty: OperationType)
    ensures
        ty == definition_kind(*definition),
{
    match definition.ty {
        async_graphql::parser::types::OperationType::Query => OperationType::Query,
        async_graphql::parser::types::OperationType::Mutation => OperationType::Mutation,
        async_graphql::parser::types::OperationType::Subscription => OperationType::Subscription,
    }
}

/// Reads the field `selection_set` of the parser's operation: the top-level
/// selections in source order; of a field its alias and name, of a fragment
/// only which of the two kinds it is.
#[verifier::external_body]
fn operation_selections(definition: &async_graphql::parser::types::OperationDefinition) -> (selections: Vec<
    Selection,
>)
    ensures
        selections.deep_view() == definition_selections(*definition),
{
    let selections = definition.selection_set.node.items.iter().map(|item| match &item.node {
        async_graphql::parser::types::Selection::Field(field) => Selection::Field {
            alias: field.node.alias.as_ref().map(|alias| alias.node.to_string()),
            name: field.node.name.node.to_string(),
        },
        async_graphql::parser::types::Selection::FragmentSpread(_) => Selection::FragmentSpread,
        async_graphql::parser::types::Selection::InlineFragment(_) => Selection::InlineFragment,
    });
    selections.collect()
}

fn clone_name(name: &Option<String>) -> (copy: Option<String>)
    ensures
        copy.deep_view() == name.deep_view(),
{
    match name {
        Some(text) => Some(text.clone()),
        None => None,
    }
}

/// Reads one operation of the parser as an operation of a document.
pub fn read_operation(operation: &NamedOperation) -> (read: DocumentOperation)
    ensures
        read.deep_view() == operation_read(*operation),
{
    DocumentOperation {
        name: clone_name(&operation.name),
        ty: operation_kind(&operation.definition),
        selections: operation_selections(&operation.definition),
    }
}

/// Reads a result of the parser as a parse outcome: a document with one entry
/// for each operation, in the order given, and with the rendering given; or
/// the error with its message and positions. A document comes out exactly
/// where the parser gave operations.
pub fn read_parsed(parsed: ParserResult, rendering: String) -> (outcome: ParseOutcome)
    ensures
        parse_outcome_view(outcome) == interpreted(parsed, rendering@),
        outcome is Ok <==> parsed is Ok,
{
    match parsed {
        Err(error) => {
            let message = parser_error_message(&error);
            let locations = parser_error_positions(&error);
            Err(ParseError { message, locations })
        },
        Ok(found) => {
            let ghost wanted = found@.map_values(|operation: NamedOperation| operation_read(operation));
            let mut operations: Vec<DocumentOperation> = Vec::new();
            let mut i: usize = 0;
            while i < found.len()
                invariant
                    i <= found.len(),
                    operations.len() == i,
                    wanted == found@.map_values(|operation: NamedOperation| operation_read(operation)),
                    forall|k: int| 0 <= k < i ==> (#[trigger] operations[k]).deep_view() == wanted[k],
                decreases found.len() - i,
            {
                operations.push(read_operation(&found[i]));
                i += 1;
            }
            let document = ParsedDocument { operations, rendering };
            assert(document.deep_view().operations =~= wanted);
            Ok(document)
        },
    }
}

/// What the parser gives for a text is read, with the text as its rendering,
/// as a parse of the text: reading keeps names, kinds and selections.
pub proof fn lemma_read_is_parse(query: Seq<char>, parsed: ParserResult)
    requires
        is_result_for(query, parsed),
    ensures
        is_parse_of(query, interpreted(parsed, query)),
{
    match parsed {
        Ok(found) => {
            let document = interpreted(parsed, query)->Ok_0;
            assert(operation_names(document) =~= found_names(found@));
            assert forall|i: int| 0 <= i < document.operations.len() implies parsed_operation(
                query,
                (#[trigger] document.operations[i]).name,
            ) == Some(document.operations[i]) by {
                assert(document.operations[i] == operation_read(found@[i]));
            }
        },
        Err(_) => {},
    }
}

/// Parses a query text into a document. The text is handed to the parser as it
/// is, and the outcome is what the parser's result is read as. A document
/// holds exactly the operations of the text, one entry for each, with its
/// name, kind and top-level selections, and is rendered as the text itself. It
/// has at least one operation, no two of its operations share a name, and an
/// operation without a name stands alone. Else the parser's error comes out,
/// with its message and positions.
pub fn parse_document(query: &str) -> (outcome: ParseOutcome)
    ensures
        is_parse_of(query@, parse_outcome_view(outcome)),
{
    let parsed = parse_with_parser(query);
    proof {
        assert(is_result_for(query@, parsed));
        lemma_read_is_parse(query@, parsed);
    }
    read_parsed(parsed, String::from_str(query))
}

} // verus!
