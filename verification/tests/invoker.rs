use graphql_gateway::chain::NoExtensions;
use graphql_gateway::document::parse_document;
use graphql_gateway::document::OperationType;
use graphql_gateway::document::ParseError;
use graphql_gateway::document::SourceLocation;
use graphql_gateway::extension::CustomExtension;
use graphql_gateway::extension::Tracing;
use graphql_gateway::invoker::execute_batch;
use graphql_gateway::invoker::execute_document;
use graphql_gateway::invoker::execute_operation;
use graphql_gateway::invoker::execute_parsed;
use graphql_gateway::invoker::resolve_info;
use graphql_gateway::invoker::select_operation;
use graphql_gateway::json::render_result;
use graphql_gateway::path::PathSegment;
use graphql_gateway::request::BatchRequest;
use graphql_gateway::request::Operation;
use graphql_gateway::response::BatchResponse;
use graphql_gateway::response::ExecutionResult;
use graphql_gateway::response::ResolveInfo;
use graphql_gateway::schema::Schema;
use graphql_gateway::schema::StaticSchema;

fn schema() -> StaticSchema {
    StaticSchema::new()
        .field("hello".to_string(), async_graphql::Value::from("World"))
        .field("answer".to_string(), async_graphql::Value::from(42))
}

fn operation(query: &str) -> Operation {
    Operation::new(query.to_string())
}

fn named(query: &str, name: &str) -> Operation {
    let mut operation = Operation::new(query.to_string());
    operation.operation_name = Some(name.to_string());
    operation
}

fn results(response: BatchResponse) -> Vec<ExecutionResult> {
    match response {
        BatchResponse::Single(result) => vec![result],
        BatchResponse::Batch(results) => results,
    }
}

#[test]
fn single_operation_gives_single_result() {
    let mut log = Vec::new();
    let response = execute_batch(&schema(), &NoExtensions::new(), &BatchRequest::Single(operation("{ hello }")), &mut log);
    assert!(matches!(response, BatchResponse::Single(_)));
    let results = results(response);
    assert_eq!(results.len(), 1);
    assert_eq!(render_result(&results[0]), "{\"data\":{\"hello\":\"World\"}}");
}

#[test]
fn batch_keeps_length_and_order() {
    let batch = BatchRequest::Batch(vec![
        operation("{ answer }"),
        operation("{ hello }"),
        operation("{ bogus }"),
        operation("{ hello answer }"),
    ]);
    assert_eq!(batch.len(), 4);
    let mut log = Vec::new();
    let response = execute_batch(&schema(), &NoExtensions::new(), &batch, &mut log);
    assert!(matches!(response, BatchResponse::Batch(_)));
    let results = results(response);
    assert_eq!(results.len(), 4);
    assert_eq!(render_result(&results[0]), "{\"data\":{\"answer\":42}}");
    assert_eq!(render_result(&results[1]), "{\"data\":{\"hello\":\"World\"}}");
    assert_eq!(
        render_result(&results[2]),
        "{\"data\":{\"bogus\":null},\"errors\":[{\"message\":\"Unknown field \\\"bogus\\\"\",\"path\":[\"bogus\"]}]}"
    );
    assert_eq!(render_result(&results[3]), "{\"data\":{\"hello\":\"World\",\"answer\":42}}");
}

#[test]
fn batch_of_one_stays_a_batch() {
    let mut log = Vec::new();
    let response = execute_batch(&schema(), &NoExtensions::new(), &BatchRequest::Batch(vec![operation("{ hello }")]), &mut log);
    assert!(matches!(&response, BatchResponse::Batch(results) if results.len() == 1));
}

#[test]
fn empty_batch_gives_no_results() {
    let mut log = Vec::new();
    let response = execute_batch(&schema(), &NoExtensions::new(), &BatchRequest::Batch(Vec::new()), &mut log);
    assert!(matches!(&response, BatchResponse::Batch(results) if results.is_empty()));
    assert!(log.is_empty());
}

#[test]
fn failing_operation_does_not_abort_siblings() {
    let batch = BatchRequest::Batch(vec![operation("{ hello"), operation("{ hello }"), operation("{ bogus }")]);
    let mut log = Vec::new();
    let results = results(execute_batch(&schema(), &NoExtensions::new(), &batch, &mut log));
    assert_eq!(results.len(), 3);
    assert!(results[0].data.is_none());
    assert_eq!(results[0].errors.len(), 1);
    assert!(results[0].errors[0].path.is_empty());
    assert!(results[1].errors.is_empty());
    assert_eq!(render_result(&results[1]), "{\"data\":{\"hello\":\"World\"}}");
    assert_eq!(results[2].errors.len(), 1);
}

#[test]
fn parse_failure_is_one_top_level_error() {
    let mut log = Vec::new();
    let result = execute_operation(&schema(), &NoExtensions::new(), &operation("{ hello"), &mut log);
    assert!(result.data.is_none());
    assert_eq!(result.errors.len(), 1);
    assert!(result.errors[0].path.is_empty());
    assert_eq!(result.errors[0].locations.len(), 1);
    assert!(!result.errors[0].message.is_empty());
}

#[test]
fn execute_parsed_takes_the_outcome_as_given() {
    let failed = Err(ParseError { message: "nope".to_string(), locations: vec![SourceLocation { line: 3, column: 9 }] });
    let mut log = Vec::new();
    let result = execute_parsed(&schema(), &NoExtensions::new(), &operation("ignored"), failed, &mut log);
    assert_eq!(
        render_result(&result),
        "{\"data\":null,\"errors\":[{\"message\":\"nope\",\"locations\":[{\"line\":3,\"column\":9}]}]}"
    );
    let parsed = parse_document("{ answer }");
    let result = execute_parsed(&schema(), &NoExtensions::new(), &operation("ignored"), parsed, &mut log);
    assert_eq!(render_result(&result), "{\"data\":{\"answer\":42}}");
}

#[test]
fn failed_field_is_null_and_siblings_resolve() {
    let mut log = Vec::new();
    let result = execute_operation(&schema(), &NoExtensions::new(), &operation("{ hello bogus answer }"), &mut log);
    let data = result.data.as_ref().unwrap();
    assert_eq!(data.len(), 3);
    assert_eq!(data[0].key, "hello");
    assert_eq!(data[0].value, Some(async_graphql::Value::from("World")));
    assert_eq!(data[1].key, "bogus");
    assert_eq!(data[1].value, None);
    assert_eq!(data[2].key, "answer");
    assert_eq!(data[2].value, Some(async_graphql::Value::from(42)));
    assert_eq!(result.errors.len(), 1);
    assert_eq!(result.errors[0].message, "Unknown field \"bogus\"");
    assert!(matches!(&result.errors[0].path[..], [PathSegment::Field(name)] if name == "bogus"));
}

#[test]
fn alias_is_the_response_key_and_the_path() {
    let mut log = Vec::new();
    let result = execute_operation(&schema(), &NoExtensions::new(), &operation("{ greeting: hello lost: bogus }"), &mut log);
    assert_eq!(
        render_result(&result),
        "{\"data\":{\"greeting\":\"World\",\"lost\":null},\"errors\":[{\"message\":\"Unknown field \\\"bogus\\\"\",\"path\":[\"lost\"]}]}"
    );
}

#[test]
fn resolve_info_takes_alias_or_name() {
    let info = resolve_info(OperationType::Query, &Some("g".to_string()), &"hello".to_string());
    assert_eq!(info.parent_type, OperationType::Query);
    assert_eq!(info.field_name, "hello");
    assert_eq!(info.response_key, "g");
    let info = resolve_info(OperationType::Mutation, &None, &"hello".to_string());
    assert_eq!(info.parent_type, OperationType::Mutation);
    assert_eq!(info.response_key, "hello");
}

#[test]
fn fragments_at_top_level_are_reported() {
    let mut log = Vec::new();
    let query = "{ hello ...F } fragment F on Query { answer }";
    let result = execute_operation(&schema(), &NoExtensions::new(), &operation(query), &mut log);
    assert_eq!(
        render_result(&result),
        "{\"data\":{\"hello\":\"World\"},\"errors\":[{\"message\":\"Fragments are not supported at the top level of an operation.\"}]}"
    );
}

#[test]
fn subscription_is_refused() {
    let mut log = Vec::new();
    let result = execute_operation(&schema(), &NoExtensions::new(), &operation("subscription { hello }"), &mut log);
    assert_eq!(
        render_result(&result),
        "{\"data\":null,\"errors\":[{\"message\":\"Subscriptions are not supported on this transport.\"}]}"
    );
}

#[test]
fn mutation_fields_are_unknown_to_a_static_schema() {
    let mut log = Vec::new();
    let result = execute_operation(&schema(), &NoExtensions::new(), &operation("mutation { hello }"), &mut log);
    assert_eq!(result.errors.len(), 1);
    assert_eq!(result.errors[0].message, "Unknown field \"hello\"");
}

#[test]
fn operation_is_selected_by_name() {
    let document = parse_document("query A { hello } query B { answer }").unwrap();
    let a = select_operation(&document, Some("A")).unwrap();
    let b = select_operation(&document, Some("B")).unwrap();
    assert_eq!(document.operations[a].name, Some("A".to_string()));
    assert_eq!(document.operations[b].name, Some("B".to_string()));
    assert_eq!(select_operation(&document, Some("C")), Err("Unknown operation named \"C\"".to_string()));
    assert_eq!(select_operation(&document, None), Err("Operation name required in request.".to_string()));
    let single = parse_document("{ hello }").unwrap();
    assert_eq!(select_operation(&single, None), Ok(0));
    assert_eq!(select_operation(&single, Some("A")), Err("Unknown operation named \"A\"".to_string()));
}

#[test]
fn named_operation_is_executed() {
    let mut log = Vec::new();
    let query = "query A { hello } query B { answer }";
    let result = execute_operation(&schema(), &NoExtensions::new(), &named(query, "B"), &mut log);
    assert_eq!(render_result(&result), "{\"data\":{\"answer\":42}}");
    let result = execute_operation(&schema(), &NoExtensions::new(), &operation(query), &mut log);
    assert_eq!(
        render_result(&result),
        "{\"data\":null,\"errors\":[{\"message\":\"Operation name required in request.\"}]}"
    );
    let result = execute_operation(&schema(), &NoExtensions::new(), &named(query, "Z"), &mut log);
    assert_eq!(
        render_result(&result),
        "{\"data\":null,\"errors\":[{\"message\":\"Unknown operation named \\\"Z\\\"\"}]}"
    );
}

#[test]
fn hooks_run_around_every_phase_in_order() {
    let chain = NoExtensions::new().with(Tracing::new("t".to_string())).with(CustomExtension::new());
    let mut log = Vec::new();
    let result = execute_operation(&schema(), &chain, &operation("{ hello bogus }"), &mut log);
    assert_eq!(result.errors.len(), 1);
    assert_eq!(
        log,
        vec![
            "> t parse",
            "[Execute] { hello bogus }",
            "< t parse",
            "> t execute",
            "> t resolve hello",
            "< t resolve hello",
            "> t resolve bogus",
            "< t resolve bogus",
            "[Error] path=bogus message=Unknown field \"bogus\"",
            "< t execute",
        ]
    );
}

#[test]
fn execute_hooks_do_not_run_when_parsing_fails() {
    let chain = NoExtensions::new().with(Tracing::new("t".to_string()));
    let mut log = Vec::new();
    let result = execute_operation(&schema(), &chain, &operation("{"), &mut log);
    assert!(result.data.is_none());
    assert_eq!(log, vec!["> t parse", "< t parse"]);
}

#[test]
fn log_runs_through_the_batch_in_order() {
    let chain = NoExtensions::new().with(CustomExtension::new());
    let batch = BatchRequest::Batch(vec![operation("{ hello }"), operation("{ __schema }"), operation("{ bogus }")]);
    let mut log = Vec::new();
    let results = results(execute_batch(&schema(), &chain, &batch, &mut log));
    assert_eq!(results.len(), 3);
    assert_eq!(
        log,
        vec![
            "[Execute] { hello }",
            "[Error] path=__schema message=Unknown field \"__schema\"",
            "[Execute] { bogus }",
            "[Error] path=bogus message=Unknown field \"bogus\"",
        ]
    );
}

#[test]
fn execute_document_walks_the_selected_operation() {
    let document = parse_document("query Q { answer hello }").unwrap();
    let mut log = Vec::new();
    let result = execute_document(&schema(), &NoExtensions::new(), &document, Some("Q"), &mut log);
    assert_eq!(render_result(&result), "{\"data\":{\"answer\":42,\"hello\":\"World\"}}");
}

#[test]
fn static_schema_resolves_the_earlier_of_two_fields() {
    let schema = StaticSchema::new()
        .field("x".to_string(), async_graphql::Value::from(1))
        .field("x".to_string(), async_graphql::Value::from(2));
    let info = ResolveInfo { parent_type: OperationType::Query, field_name: "x".to_string(), response_key: "x".to_string() };
    assert_eq!(schema.resolve_field(&info).ok(), Some(async_graphql::Value::from(1)));
    let empty = StaticSchema::new();
    assert_eq!(empty.resolve_field(&info).err().map(|e| e.message), Some("Unknown field \"x\"".to_string()));
}

#[test]
fn a_response_key_selected_twice_keeps_its_first_entry() {
    let mut log = Vec::new();
    let result = execute_operation(&schema(), &NoExtensions::new(), &operation("{ hello hello }"), &mut log);
    assert_eq!(render_result(&result), "{\"data\":{\"hello\":\"World\"}}");
    let result = execute_operation(&schema(), &NoExtensions::new(), &operation("{ a: hello a: answer b: answer }"), &mut log);
    assert_eq!(render_result(&result), "{\"data\":{\"a\":\"World\",\"b\":42}}");
    let result = execute_operation(&schema(), &NoExtensions::new(), &operation("{ x: bogus x: hello }"), &mut log);
    assert_eq!(
        render_result(&result),
        "{\"data\":{\"x\":null},\"errors\":[{\"message\":\"Unknown field \\\"bogus\\\"\",\"path\":[\"x\"]}]}"
    );
}

#[test]
fn a_repeated_response_key_is_not_resolved_again() {
    let chain = NoExtensions::new().with(Tracing::new("t".to_string()));
    let document = parse_document("{ hello hello other: hello }").unwrap();
    let mut log = Vec::new();
    let result = execute_document(&schema(), &chain, &document, None, &mut log);
    let keys: Vec<&str> = result.data.as_ref().unwrap().iter().map(|entry| entry.key.as_str()).collect();
    assert_eq!(keys, vec!["hello", "other"]);
    assert_eq!(
        log,
        vec!["> t resolve hello", "< t resolve hello", "> t resolve other", "< t resolve other"]
    );
}
