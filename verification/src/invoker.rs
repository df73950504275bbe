//! Execution of operations and batches through a chain of extensions.

use crate::chain::ExtensionChain;
use crate::chain::NextExecute;
use crate::chain::NextParseQuery;
use crate::chain::NextResolve;
use crate::chain::Trace;
use crate::document::is_parse_of;
use crate::document::parse_document;
use crate::document::parse_outcome_view;
use crate::document::DocumentOperation;
use crate::document::DocumentOperationView;
use crate::document::DocumentView;
use crate::document::OperationType;
use crate::document::ParseOutcome;
use crate::document::ParseOutcomeView;
use crate::document::ParsedDocument;
use crate::document::Selection;
use crate::document::SelectionView;
use crate::document::SourceLocation;
use crate::error::ServerError;
use crate::error::ServerErrorView;
use crate::path::PathSegment;
use crate::path::SegmentView;
use crate::request::BatchRequest;
use crate::request::BatchRequestView;
use crate::request::Operation;
use crate::request::OperationView;
use crate::response::has_key;
use crate::response::has_unique_keys;
use crate::response::is_mapping;
use crate::response::resolve_outcome_view;
use crate::response::BatchResponse;
use crate::response::BatchResponseView;
use crate::response::ExecutionResult;
use crate::response::ExecutionResultView;
use crate::response::FieldEntry;
use crate::response::FieldEntryView;
use crate::response::ResolveInfo;
use crate::response::ResolveInfoView;
use crate::response::ResolveOutcome;
use crate::response::ResolveOutcomeView;
use crate::schema::Schema;
use crate::text::text_eq;
use vstd::prelude::*;
use vstd::string::StringExecFns;

verus! {

/// Parsing that has been done: it hands out its outcome and logs nothing.
pub open spec fn parsed_model(parsed: ParseOutcomeView) -> spec_fn(Trace) -> (ParseOutcomeView, Trace) {
    |log: Trace| (parsed, log)
}

/// The resolver of the schema for one field: it logs nothing.
pub open spec fn resolver_model<S: Schema>(schema: &S, info: ResolveInfoView) -> spec_fn(Trace) -> (
    ResolveOutcomeView,
    Trace,
) {
    |log: Trace| (schema.field_outcome(info), log)
}

/// The key under which the response holds a field: its alias where it has one,
/// else its name.
pub open spec fn response_key(alias: Option<Seq<char>>, name: Seq<char>) -> Seq<char> {
    match alias {
        Some(key) => key,
        None => name,
    }
}

/// The error of a field that could not be resolved: its path names the field.
pub open spec fn field_error(key: Seq<char>, message: Seq<char>) -> ServerErrorView {
    ServerErrorView { message, path: seq![SegmentView::Field(key)], locations: Seq::empty() }
}

/// The error of an operation as a whole.
pub open spec fn operation_error(message: Seq<char>, locations: Seq<SourceLocation>) -> ServerErrorView {
    ServerErrorView { message, path: Seq::empty(), locations }
}

/// The result of an operation that was not executed: no data and one error
/// without a path.
pub open spec fn failure(message: Seq<char>, locations: Seq<SourceLocation>) -> ExecutionResultView {
    ExecutionResultView { data: None, errors: seq![operation_error(message, locations)] }
}

/// The message for a fragment among the top-level selections.
pub open spec fn fragment_message() -> Seq<char> {
    "Fragments are not supported at the top level of an operation."@
}

/// The message for a subscription.
pub open spec fn subscription_message() -> Seq<char> {
    "Subscriptions are not supported on this transport."@
}

/// The message for a request that names no operation where the document has
/// not exactly one.
pub open spec fn name_required_message() -> Seq<char> {
    "Operation name required in request."@
}

/// The message for a request that names an operation the document lacks.
pub open spec fn unknown_operation_message(name: Seq<char>) -> Seq<char> {
    "Unknown operation named \""@ + name + "\""@
}

/// The data and errors gathered while walking a selection set, and the log.
pub struct Walk {
    pub data: Seq<FieldEntryView>,
    pub errors: Seq<ServerErrorView>,
    pub log: Trace,
}

/// What the field resolution is told for a field of a root operation.
pub open spec fn field_info(ty: OperationType, alias: Option<Seq<char>>, name: Seq<char>) -> ResolveInfoView {
    ResolveInfoView { parent_type: ty, field_name: name, response_key: response_key(alias, name) }
}

/// One step of the walk. A field whose response key the data hold already is
/// passed over: the data are a mapping, and the entry that came first stays.
/// Any other field is resolved through the resolve hooks of the chain: its
/// value is added to the data under its response key; where the resolution
/// fails the data hold no value for it and an error with the field's path is
/// added, and the walk goes on. A fragment adds an error without a path and no
/// data.
pub open spec fn selected<S: Schema, C: ExtensionChain>(
    schema: &S,
    chain: &C,
    ty: OperationType,
    selection: SelectionView,
    before: Walk,
) -> Walk {
    match selection {
        SelectionView::Field { alias, name } => {
            let info = field_info(ty, alias, name);
            if has_key(before.data, info.response_key) {
                before
            } else {
                let (outcome, log) = chain.resolve_model(info, resolver_model(schema, info), before.log);
                match outcome {
                    Ok(value) => Walk {
                        data: before.data.push(FieldEntryView { key: info.response_key, value: Some(value) }),
                        errors: before.errors,
                        log,
                    },
                    Err(message) => Walk {
                        data: before.data.push(FieldEntryView { key: info.response_key, value: None }),
                        errors: before.errors.push(field_error(info.response_key, message)),
                        log,
                    },
                }
            }
        },
        _ => Walk {
            data: before.data,
            errors: before.errors.push(operation_error(fragment_message(), Seq::empty())),
            log: before.log,
        },
    }
}

/// The walk over a selection set, in order.
pub open spec fn walked<S: Schema, C: ExtensionChain>(
    schema: &S,
    chain: &C,
    ty: OperationType,
    selections: Seq<SelectionView>,
    log: Trace,
) -> Walk
    decreases selections.len(),
{
    if selections.len() == 0 {
        Walk { data: Seq::empty(), errors: Seq::empty(), log }
    } else {
        selected(schema, chain, ty, selections.last(), walked(schema, chain, ty, selections.drop_last(), log))
    }
}

/// The position of the first operation called `name` at or after `from`.
pub open spec fn named_from(operations: Seq<DocumentOperationView>, name: Seq<char>, from: int) -> Option<int>
    decreases operations.len() - from,
{
    if from < 0 || from >= operations.len() {
        None
    } else if operations[from].name == Some(name) {
        Some(from)
    } else {
        named_from(operations, name, from + 1)
    }
}

/// Which operation of the document a request means: the one it names; without
/// a name, the only one. Else the message that says what is wrong.
pub open spec fn selected_operation(document: DocumentView, name: Option<Seq<char>>) -> Result<int, Seq<char>> {
    match name {
        Some(name) => match named_from(document.operations, name, 0) {
            Some(i) => Ok(i),
            None => Err(unknown_operation_message(name)),
        },
        None => if document.operations.len() == 1 {
            Ok(0)
        } else {
            Err(name_required_message())
        },
    }
}

/// The execution proper of a parsed document: the selected operation's
/// top-level selections are walked in order. A subscription, or a request that
/// selects no operation, gives a failure.
pub open spec fn executed_document<S: Schema, C: ExtensionChain>(
    schema: &S,
    chain: &C,
    document: DocumentView,
    name: Option<Seq<char>>,
    log: Trace,
) -> (ExecutionResultView, Trace) {
    match selected_operation(document, name) {
        Err(message) => (failure(message, Seq::empty()), log),
        Ok(i) => {
            let operation = document.operations[i];
            if operation.ty == OperationType::Subscription {
                (failure(subscription_message(), Seq::empty()), log)
            } else {
                let walk = walked(schema, chain, operation.ty, operation.selections, log);
                (ExecutionResultView { data: Some(walk.data), errors: walk.errors }, walk.log)
            }
        },
    }
}

/// The execution proper, as the execute hooks see it.
pub open spec fn executor_model<S: Schema, C: ExtensionChain>(
    schema: &S,
    chain: &C,
    document: DocumentView,
    name: Option<Seq<char>>,
) -> spec_fn(Trace) -> (ExecutionResultView, Trace) {
    |log: Trace| executed_document(schema, chain, document, name, log)
}

/// One operation from query text to result, given what parsing the text gave.
/// The parse hooks run around the parsing. Where they hand back an error the
/// result is a failure with that error and nothing is executed; else the
/// execute hooks run around the execution proper.
pub open spec fn executed_operation<S: Schema, C: ExtensionChain>(
    schema: &S,
    chain: &C,
    query: Seq<char>,
    variables: async_graphql::Variables,
    name: Option<Seq<char>>,
    parsed: ParseOutcomeView,
    log: Trace,
) -> (ExecutionResultView, Trace) {
    let (outcome, after_parse) = chain.parse_query_model(query, variables, parsed_model(parsed), log);
    match outcome {
        Err(error) => (failure(error.message, error.locations), after_parse),
        Ok(document) => chain.execute_model(name, executor_model(schema, chain, document, name), after_parse),
    }
}

/// The operations of a batch from first to last, each with what parsing its
/// query gave; the log runs through all of them.
pub open spec fn batch_executed<S: Schema, C: ExtensionChain>(
    schema: &S,
    chain: &C,
    operations: Seq<OperationView>,
    parsed: Seq<ParseOutcomeView>,
    log: Trace,
) -> (Seq<ExecutionResultView>, Trace)
    decreases operations.len(),
{
    if operations.len() == 0 {
        (Seq::empty(), log)
    } else {
        let (results, before) = batch_executed(schema, chain, operations.drop_last(), parsed.drop_last(), log);
        let (result, after) = executed_operation(
            schema,
            chain,
            operations.last().query,
            operations.last().variables,
            operations.last().operation_name,
            parsed.last(),
            before,
        );
        (results.push(result), after)
    }
}

/// Whether the outcomes are parses of the queries of the operations, one for
/// one.
pub open spec fn are_parses_of(operations: Seq<OperationView>, parsed: Seq<ParseOutcomeView>) -> bool {
    &&& parsed.len() == operations.len()
    &&& forall|i: int| 0 <= i < parsed.len() ==> is_parse_of(operations[i].query, #[trigger] parsed[i])
}

/// The parsing itself at the end of the parse hooks, with its outcome in hand.
pub struct Parsed {
    pub outcome: ParseOutcome,
}

impl NextParseQuery for Parsed {
    open spec fn model(&self) -> spec_fn(Trace) -> (ParseOutcomeView, Trace) {
        parsed_model(parse_outcome_view(self.outcome))
    }

    fn run(self, log: &mut Vec<String>) -> (outcome: ParseOutcome) {
        self.outcome
    }
}

/// The resolver itself at the end of the resolve hooks.
pub struct Resolver<'a, S> {
    pub schema: &'a S,
    pub info: &'a ResolveInfo,
}

impl<'a, S: Schema> NextResolve for Resolver<'a, S> {
    open spec fn model(&self) -> spec_fn(Trace) -> (ResolveOutcomeView, Trace) {
        resolver_model(self.schema, self.info.deep_view())
    }

    fn run(self, log: &mut Vec<String>) -> (outcome: ResolveOutcome) {
        self.schema.resolve_field(self.info)
    }
}

/// The execution proper at the end of the execute hooks.
pub struct Executor<'a, S, C> {
    pub schema: &'a S,
    pub chain: &'a C,
    pub document: &'a ParsedDocument,
    pub operation_name: Option<&'a str>,
}

impl<'a, S: Schema, C: ExtensionChain> NextExecute for Executor<'a, S, C> {
    open spec fn model(&self) -> spec_fn(Trace) -> (ExecutionResultView, Trace) {
        executor_model(self.schema, self.chain, self.document.deep_view(), self.operation_name.deep_view())
    }

    fn run(self, log: &mut Vec<String>) -> (result: ExecutionResult) {
        execute_document(self.schema, self.chain, self.document, self.operation_name, log)
    }
}

fn push_entry(data: &mut Vec<FieldEntry>, entry: FieldEntry)
    ensures
        final(data).deep_view() == old(data).deep_view().push(entry.deep_view()),
{
    data.push(entry);
    assert(data.deep_view() =~= old(data).deep_view().push(entry.deep_view()));
}

fn push_error(errors: &mut Vec<ServerError>, error: ServerError)
    ensures
        final(errors).deep_view() == old(errors).deep_view().push(error.deep_view()),
{
    errors.push(error);
    assert(errors.deep_view() =~= old(errors).deep_view().push(error.deep_view()));
}

fn push_result(results: &mut Vec<ExecutionResult>, result: ExecutionResult)
    ensures
        final(results).deep_view() == old(results).deep_view().push(result.deep_view()),
        final(results).len() == old(results).len() + 1,
{
    results.push(result);
    assert(results.deep_view() =~= old(results).deep_view().push(result.deep_view()));
}

fn make_field_error(key: &str, message: String) -> (error: ServerError)
    ensures
        error.deep_view() == field_error(key@, message@),
{
    let mut path: Vec<PathSegment> = Vec::new();
    path.push(PathSegment::Field(String::from_str(key)));
    let error = ServerError { message, path, locations: Vec::new() };
    assert(error.path.deep_view() =~= seq![SegmentView::Field(key@)]);
    error
}

fn make_failure(message: String, locations: Vec<SourceLocation>) -> (result: ExecutionResult)
    ensures
        result.deep_view() == failure(message@, locations@),
{
    let mut errors: Vec<ServerError> = Vec::new();
    errors.push(ServerError::top_level(message, locations));
    let result = ExecutionResult { data: None, errors };
    assert(result.errors.deep_view() =~= seq![operation_error(message@, locations@)]);
    result
}

/// What the field resolution is told for a field of a root operation.
pub fn resolve_info(ty: OperationType, alias: &Option<String>, name: &String) -> (info: ResolveInfo)
    ensures
        info.deep_view() == field_info(ty, alias.deep_view(), name@),
{
    let response_key = match alias {
        Some(key) => key.clone(),
        None => name.clone(),
    };
    ResolveInfo { parent_type: ty, field_name: name.clone(), response_key }
}

/// Which operation of the document a request means.
pub fn select_operation(document: &ParsedDocument, name: Option<&str>) -> (selected: Result<usize, String>)
    ensures
        match selected {
            Ok(i) => selected_operation(document.deep_view(), name.deep_view()) == Ok::<int, Seq<char>>(i as int)
                && i < document.operations.len(),
            Err(message) => selected_operation(document.deep_view(), name.deep_view()) == Err::<int, Seq<char>>(
                message@,
            ),
        },
{
    match name {
        Some(wanted) => {
            let ghost operations = document.deep_view().operations;
            let mut i: usize = 0;
            while i < document.operations.len()
                invariant
                    i <= document.operations.len(),
                    operations == document.deep_view().operations,
                    name == Some(wanted),
                    named_from(operations, wanted@, 0) == named_from(operations, wanted@, i as int),
                decreases document.operations.len() - i,
            {
                assert(operations[i as int] == document.operations[i as int].deep_view());
                let found = match &document.operations[i].name {
                    Some(name) => text_eq(name.as_str(), wanted),
                    None => false,
                };
                if found {
                    assert(named_from(operations, wanted@, i as int) == Some(i as int));
                    return Ok(i);
                }
                i += 1;
            }
            let mut message = String::from_str("Unknown operation named \"");
            message.append(wanted);
            message.append("\"");
            Err(message)
        },
        None => {
            if document.operations.len() == 1 {
                Ok(0)
            } else {
                Err(String::from_str("Operation name required in request."))
            }
        },
    }
}

/// Whether the data hold an entry under `key`.
fn holds_key(data: &Vec<FieldEntry>, key: &str) -> (found: bool)
    ensures
        found == has_key(data.deep_view(), key@),
{
    let mut i: usize = 0;
    while i < data.len()
        invariant
            i <= data.len(),
            forall|k: int| 0 <= k < i ==> (#[trigger] data.deep_view()[k]).key != key@,
        decreases data.len() - i,
    {
        if text_eq(data[i].key.as_str(), key) {
            assert(data.deep_view()[i as int].key == key@);
            return true;
        }
        i += 1;
    }
    false
}

/// Adding an entry under a key that the data do not hold keeps them a mapping.
proof fn lemma_push_keeps_keys_unique(data: Seq<FieldEntryView>, entry: FieldEntryView)
    requires
        has_unique_keys(data),
        !has_key(data, entry.key),
    ensures
        has_unique_keys(data.push(entry)),
{
    let longer = data.push(entry);
    assert forall|i: int, j: int| 0 <= i < j < longer.len() implies (#[trigger] longer[i]).key != (
    #[trigger] longer[j]).key by {
        if j < data.len() {
            assert(longer[i] == data[i] && longer[j] == data[j]);
        } else {
            assert(longer[i] == data[i]);
        }
    }
}

/// The data of a walk are a mapping: each response key occurs once.
pub proof fn lemma_walked_keys_unique<S: Schema, C: ExtensionChain>(
    schema: &S,
    chain: &C,
    ty: OperationType,
    selections: Seq<SelectionView>,
    log: Trace,
)
    ensures
        has_unique_keys(walked(schema, chain, ty, selections, log).data),
    decreases selections.len(),
{
    if selections.len() > 0 {
        lemma_walked_keys_unique(schema, chain, ty, selections.drop_last(), log);
        let before = walked(schema, chain, ty, selections.drop_last(), log);
        match selections.last() {
            SelectionView::Field { alias, name } => {
                let info = field_info(ty, alias, name);
                if !has_key(before.data, info.response_key) {
                    lemma_push_keeps_keys_unique(
                        before.data,
                        FieldEntryView { key: info.response_key, value: None },
                    );
                    let (outcome, after) = chain.resolve_model(info, resolver_model(schema, info), before.log);
                    match outcome {
                        Ok(value) => {
                            lemma_push_keeps_keys_unique(
                                before.data,
                                FieldEntryView { key: info.response_key, value: Some(value) },
                            );
                        },
                        Err(_) => {},
                    }
                }
            },
            _ => {},
        }
    }
}

/// The execution proper gives a result whose data, where it has data, are a
/// mapping.
pub proof fn lemma_executed_document_is_mapping<S: Schema, C: ExtensionChain>(
    schema: &S,
    chain: &C,
    document: DocumentView,
    name: Option<Seq<char>>,
    log: Trace,
)
    ensures
        is_mapping(executed_document(schema, chain, document, name, log).0),
{
    match selected_operation(document, name) {
        Ok(i) => {
            let operation = document.operations[i];
            lemma_walked_keys_unique(schema, chain, operation.ty, operation.selections, log);
        },
        Err(_) => {},
    }
}

/// Walks a selection set in order and gathers data and errors.
fn walk_selections<S: Schema, C: ExtensionChain>(
    schema: &S,
    chain: &C,
    operation: &DocumentOperation,
    log: &mut Vec<String>,
) -> (result: ExecutionResult)
    ensures
        ({
            let walk = walked(
                schema,
                chain,
                operation.ty,
                operation.deep_view().selections,
                old(log).deep_view(),
            );
            &&& result.deep_view() == (ExecutionResultView { data: Some(walk.data), errors: walk.errors })
            &&& final(log).deep_view() == walk.log
        }),
{
    let ghost selections = operation.deep_view().selections;
    let mut data: Vec<FieldEntry> = Vec::new();
    let mut errors: Vec<ServerError> = Vec::new();
    let mut i: usize = 0;
    assert(data.deep_view() =~= Seq::empty());
    assert(errors.deep_view() =~= Seq::empty());
    while i < operation.selections.len()
        invariant
            i <= operation.selections.len(),
            selections == operation.deep_view().selections,
            walked(schema, chain, operation.ty, selections.take(i as int), old(log).deep_view()) == (Walk {
                data: data.deep_view(),
                errors: errors.deep_view(),
                log: log.deep_view(),
            }),
        decreases operation.selections.len() - i,
    {
        proof {
            assert(selections.take(i + 1).drop_last() =~= selections.take(i as int));
            assert(selections.take(i + 1).last() == operation.selections[i as int].deep_view());
        }
        match &operation.selections[i] {
            Selection::Field { alias, name } => {
                let info = resolve_info(operation.ty, alias, name);
                if !holds_key(&data, info.response_key.as_str()) {
                    let outcome = chain.resolve(&info, Resolver { schema, info: &info }, log);
                    match outcome {
                        Ok(value) => {
                            push_entry(&mut data, FieldEntry { key: info.response_key, value: Some(value) });
                        },
                        Err(error) => {
                            push_error(&mut errors, make_field_error(info.response_key.as_str(), error.message));
                            push_entry(&mut data, FieldEntry { key: info.response_key, value: None });
                        },
                    }
                }
            },
            _ => {
                push_error(
                    &mut errors,
                    ServerError::top_level(
                        String::from_str("Fragments are not supported at the top level of an operation."),
                        Vec::new(),
                    ),
                );
            },
        }
        i += 1;
    }
    assert(selections.take(i as int) =~= selections);
    let result = ExecutionResult { data: Some(data), errors };
    result
}

/// The execution proper of a parsed document: selects the operation and walks
/// its top-level selections in order, each field through the resolve hooks.
/// The data of the result are a mapping: a response key that is selected again
/// keeps the entry that came first and is not resolved again.
pub fn execute_document<S: Schema, C: ExtensionChain>(
    schema: &S,
    chain: &C,
    document: &ParsedDocument,
    operation_name: Option<&str>,
    log: &mut Vec<String>,
) -> (result: ExecutionResult)
    ensures
        (result.deep_view(), final(log).deep_view()) == executed_document(
            schema,
            chain,
            document.deep_view(),
            operation_name.deep_view(),
            old(log).deep_view(),
        ),
        is_mapping(result.deep_view()),
{
    proof {
        lemma_executed_document_is_mapping(
            schema,
            chain,
            document.deep_view(),
            operation_name.deep_view(),
            log.deep_view(),
        );
    }
    match select_operation(document, operation_name) {
        Err(message) => make_failure(message, Vec::new()),
        Ok(i) => {
            let operation = &document.operations[i];
            assert(document.deep_view().operations[i as int] == operation.deep_view());
            if operation.ty == OperationType::Subscription {
                make_failure(String::from_str("Subscriptions are not supported on this transport."), Vec::new())
            } else {
                walk_selections(schema, chain, operation, log)
            }
        },
    }
}

fn name_of(operation: &Operation) -> (name: Option<&str>)
    ensures
        name.deep_view() == operation.operation_name.deep_view(),
{
    match &operation.operation_name {
        Some(name) => Some(name.as_str()),
        None => None,
    }
}

/// Executes one operation, given what parsing its query gave: the parse hooks
/// run around the outcome, and where a document comes back, the execute hooks
/// run around its execution.
pub fn execute_parsed<S: Schema, C: ExtensionChain>(
    schema: &S,
    chain: &C,
    operation: &Operation,
    parsed: ParseOutcome,
    log: &mut Vec<String>,
) -> (result: ExecutionResult)
    ensures
        (result.deep_view(), final(log).deep_view()) == executed_operation(
            schema,
            chain,
            operation.query@,
            operation.variables,
            operation.operation_name.deep_view(),
            parse_outcome_view(parsed),
            old(log).deep_view(),
        ),
{
    let name = name_of(operation);
    match chain.parse_query(operation.query.as_str(), &operation.variables, Parsed { outcome: parsed }, log) {
        Err(error) => make_failure(error.message, error.locations),
        Ok(document) => {
            let executor = Executor { schema, chain, document: &document, operation_name: name };
            chain.execute(name, executor, log)
        },
    }
}

/// Parses the query of one operation and executes it: the result is that of
/// [`execute_parsed`] on a parse of the operation's query.
pub fn execute_operation<S: Schema, C: ExtensionChain>(
    schema: &S,
    chain: &C,
    operation: &Operation,
    log: &mut Vec<String>,
) -> (result: ExecutionResult)
    ensures
        exists|parsed: ParseOutcomeView|
            is_parse_of(operation.query@, parsed) && (result.deep_view(), final(log).deep_view())
                == #[trigger] executed_operation(
                schema,
                chain,
                operation.query@,
                operation.variables,
                operation.operation_name.deep_view(),
                parsed,
                old(log).deep_view(),
            ),
{
    let parsed = parse_document(operation.query.as_str());
    execute_parsed(schema, chain, operation, parsed, log)
}

/// Executes a request: each operation is parsed and executed on its own, in
/// input order, and an operation that fails changes nothing for the others.
/// The response has the shape of the request and one result for each
/// operation, in the same order: the results are those of [`batch_executed`]
/// on parses of the operations' queries.
pub fn execute_batch<S: Schema, C: ExtensionChain>(
    schema: &S,
    chain: &C,
    request: &BatchRequest,
    log: &mut Vec<String>,
) -> (response: BatchResponse)
    ensures
        response.deep_view() is Single <==> request.deep_view() is Single,
        response.deep_view().results().len() == request.deep_view().operations().len(),
        exists|parsed: Seq<ParseOutcomeView>|
            are_parses_of(request.deep_view().operations(), parsed) && (
                response.deep_view().results(),
                final(log).deep_view(),
            ) == #[trigger] batch_executed(
                schema,
                chain,
                request.deep_view().operations(),
                parsed,
                old(log).deep_view(),
            ),
{
    match request {
        BatchRequest::Single(operation) => {
            let result = execute_operation(schema, chain, operation, log);
            proof {
                let operations = request.deep_view().operations();
                let one = choose|parsed: ParseOutcomeView|
                    is_parse_of(operation.query@, parsed) && (result.deep_view(), log.deep_view())
                        == #[trigger] executed_operation(
                        schema,
                        chain,
                        operation.query@,
                        operation.variables,
                        operation.operation_name.deep_view(),
                        parsed,
                        old(log).deep_view(),
                    );
                let parsed = seq![one];
                assert(operations.drop_last() =~= Seq::empty());
                assert(batch_executed(schema, chain, operations.drop_last(), parsed.drop_last(), old(log).deep_view())
                    == (Seq::<ExecutionResultView>::empty(), old(log).deep_view()));
                assert(batch_executed(schema, chain, operations, parsed, old(log).deep_view()).0 =~= seq![
                    result.deep_view(),
                ]);
            }
            BatchResponse::Single(result)
        },
        BatchRequest::Batch(operations) => {
            let ghost all = operations.deep_view();
            let ghost mut parsed: Seq<ParseOutcomeView> = Seq::empty();
            let mut results: Vec<ExecutionResult> = Vec::new();
            let mut i: usize = 0;
            assert(results.deep_view() =~= Seq::empty());
            assert(all.take(0) =~= Seq::empty());
            while i < operations.len()
                invariant
                    i <= operations.len(),
                    all == operations.deep_view(),
                    parsed.len() == i,
                    are_parses_of(all.take(i as int), parsed),
                    results.len() == i,
                    (results.deep_view(), log.deep_view()) == batch_executed(
                        schema,
                        chain,
                        all.take(i as int),
                        parsed,
                        old(log).deep_view(),
                    ),
                decreases operations.len() - i,
            {
                let ghost before = log.deep_view();
                let result = execute_operation(schema, chain, &operations[i], log);
                proof {
                    let one = choose|one: ParseOutcomeView|
                        is_parse_of(operations[i as int].query@, one) && (result.deep_view(), log.deep_view())
                            == #[trigger] executed_operation(
                            schema,
                            chain,
                            operations[i as int].query@,
                            operations[i as int].variables,
                            operations[i as int].operation_name.deep_view(),
                            one,
                            before,
                        );
                    let longer = parsed.push(one);
                    assert(longer.drop_last() =~= parsed);
                    assert(all.take(i + 1).drop_last() =~= all.take(i as int));
                    assert(all.take(i + 1).last() == operations[i as int].deep_view());
                    parsed = longer;
                }
                push_result(&mut results, result);
                i += 1;
            }
            assert(all.take(i as int) =~= all);
            BatchResponse::Batch(results)
        },
    }
}

/// Order: a batch gives one result for each operation, and the result at each
/// position is that of the operation at that position, executed with the log
/// as the operations before it left it.
pub proof fn lemma_batch_keeps_order<S: Schema, C: ExtensionChain>(
    schema: &S,
    chain: &C,
    operations: Seq<OperationView>,
    parsed: Seq<ParseOutcomeView>,
    log: Trace,
    i: int,
)
    requires
        parsed.len() == operations.len(),
        0 <= i < operations.len(),
    ensures
        batch_executed(schema, chain, operations, parsed, log).0.len() == operations.len(),
        batch_executed(schema, chain, operations, parsed, log).0[i] == executed_operation(
            schema,
            chain,
            operations[i].query,
            operations[i].variables,
            operations[i].operation_name,
            parsed[i],
            batch_executed(schema, chain, operations.take(i), parsed.take(i), log).1,
        ).0,
    decreases operations.len(),
{
    lemma_batch_length(schema, chain, operations.drop_last(), parsed.drop_last(), log);
    if i == operations.len() - 1 {
        assert(operations.take(i) =~= operations.drop_last());
        assert(parsed.take(i) =~= parsed.drop_last());
    } else {
        lemma_batch_keeps_order(schema, chain, operations.drop_last(), parsed.drop_last(), log, i);
        assert(operations.drop_last().take(i) =~= operations.take(i));
        assert(parsed.drop_last().take(i) =~= parsed.take(i));
    }
}

/// A batch gives as many results as it has operations.
pub proof fn lemma_batch_length<S: Schema, C: ExtensionChain>(
    schema: &S,
    chain: &C,
    operations: Seq<OperationView>,
    parsed: Seq<ParseOutcomeView>,
    log: Trace,
)
    ensures
        batch_executed(schema, chain, operations, parsed, log).0.len() == operations.len(),
    decreases operations.len(),
{
    if operations.len() > 0 {
        lemma_batch_length(schema, chain, operations.drop_last(), parsed.drop_last(), log);
    }
}

/// Whether two operations are the same to the execution: they agree in query,
/// variables and name.
pub open spec fn same_operation(first: OperationView, second: OperationView) -> bool {
    &&& first.query == second.query
    &&& first.variables == second.variables
    &&& first.operation_name == second.operation_name
}

/// Operations that agree in query, variables and name give the same results
/// and the same log, whatever else they carry.
pub proof fn lemma_same_operations_same_results<S: Schema, C: ExtensionChain>(
    schema: &S,
    chain: &C,
    first: Seq<OperationView>,
    second: Seq<OperationView>,
    parsed: Seq<ParseOutcomeView>,
    log: Trace,
)
    requires
        first.len() == second.len(),
        forall|i: int| 0 <= i < first.len() ==> same_operation(#[trigger] first[i], second[i]),
    ensures
        batch_executed(schema, chain, first, parsed, log) == batch_executed(schema, chain, second, parsed, log),
    decreases first.len(),
{
    if first.len() > 0 {
        lemma_same_operations_same_results(
            schema,
            chain,
            first.drop_last(),
            second.drop_last(),
            parsed.drop_last(),
            log,
        );
        assert(same_operation(first[first.len() - 1], second[first.len() - 1]));
    }
}

} // verus!
