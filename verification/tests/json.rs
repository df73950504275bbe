use graphql_gateway::document::SourceLocation;
use graphql_gateway::error::ServerError;
use graphql_gateway::json::render_response;
use graphql_gateway::json::render_result;
use graphql_gateway::path::PathSegment;
use graphql_gateway::response::BatchResponse;
use graphql_gateway::response::ExecutionResult;
use graphql_gateway::response::FieldEntry;

fn entry(key: &str, value: Option<async_graphql::Value>) -> FieldEntry {
    FieldEntry { key: key.to_string(), value }
}

fn hello() -> ExecutionResult {
    ExecutionResult { data: Some(vec![entry("hello", Some(async_graphql::Value::from("World")))]), errors: Vec::new() }
}

fn failing() -> ExecutionResult {
    ExecutionResult {
        data: Some(vec![entry("bogus", None)]),
        errors: vec![ServerError {
            message: "no".to_string(),
            path: vec![PathSegment::Field("bogus".to_string())],
            locations: Vec::new(),
        }],
    }
}

/// The same result as `async_graphql` holds it, for comparing the wire forms.
fn outside(result: &ExecutionResult) -> async_graphql::Response {
    let data = match &result.data {
        Some(entries) => {
            let mut object = async_graphql::indexmap::IndexMap::new();
            for entry in entries {
                object.insert(
                    async_graphql::Name::new(&entry.key),
                    entry.value.clone().unwrap_or(async_graphql::Value::Null),
                );
            }
            async_graphql::Value::Object(object)
        },
        None => async_graphql::Value::Null,
    };
    let mut response = async_graphql::Response::new(data);
    for error in &result.errors {
        let mut converted = async_graphql::ServerError::new(error.message.clone(), None);
        converted.locations =
            error.locations.iter().map(|l| async_graphql::Pos { line: l.line, column: l.column }).collect();
        converted.path = error
            .path
            .iter()
            .map(|segment| match segment {
                PathSegment::Field(name) => async_graphql::PathSegment::Field(name.clone()),
                PathSegment::Index(index) => async_graphql::PathSegment::Index(*index),
            })
            .collect();
        response.errors.push(converted);
    }
    response
}

#[test]
fn result_without_errors_has_only_data() {
    assert_eq!(render_result(&hello()), "{\"data\":{\"hello\":\"World\"}}");
}

#[test]
fn result_without_data_is_null() {
    let result = ExecutionResult {
        data: None,
        errors: vec![ServerError { message: "bad".to_string(), path: Vec::new(), locations: Vec::new() }],
    };
    assert_eq!(render_result(&result), "{\"data\":null,\"errors\":[{\"message\":\"bad\"}]}");
}

#[test]
fn empty_data_is_an_empty_object() {
    let result = ExecutionResult { data: Some(Vec::new()), errors: Vec::new() };
    assert_eq!(render_result(&result), "{\"data\":{}}");
}

#[test]
fn fields_keep_their_order() {
    let result = ExecutionResult {
        data: Some(vec![
            entry("z", Some(async_graphql::Value::from(1))),
            entry("a", None),
            entry("m", Some(async_graphql::Value::from(true))),
        ]),
        errors: Vec::new(),
    };
    assert_eq!(render_result(&result), "{\"data\":{\"z\":1,\"a\":null,\"m\":true}}");
}

#[test]
fn error_path_and_locations_are_written() {
    let result = ExecutionResult {
        data: None,
        errors: vec![
            ServerError {
                message: "first".to_string(),
                path: vec![
                    PathSegment::Field("a".to_string()),
                    PathSegment::Index(2),
                    PathSegment::Field("b".to_string()),
                ],
                locations: vec![SourceLocation { line: 1, column: 3 }, SourceLocation { line: 10, column: 25 }],
            },
            ServerError { message: "second".to_string(), path: Vec::new(), locations: Vec::new() },
        ],
    };
    assert_eq!(
        render_result(&result),
        "{\"data\":null,\"errors\":[{\"message\":\"first\",\"locations\":[{\"line\":1,\"column\":3},{\"line\":10,\"column\":25}],\"path\":[\"a\",2,\"b\"]},{\"message\":\"second\"}]}"
    );
}

#[test]
fn texts_are_quoted_and_escaped() {
    let result = ExecutionResult {
        data: Some(vec![entry("say \"hi\"", Some(async_graphql::Value::from("line\nbreak \\ \"q\"")))]),
        errors: vec![ServerError {
            message: "tab\there \"quoted\"".to_string(),
            path: vec![PathSegment::Field("say \"hi\"".to_string())],
            locations: Vec::new(),
        }],
    };
    assert_eq!(
        render_result(&result),
        "{\"data\":{\"say \\\"hi\\\"\":\"line\\nbreak \\\\ \\\"q\\\"\"},\"errors\":[{\"message\":\"tab\\there \\\"quoted\\\"\",\"path\":[\"say \\\"hi\\\"\"]}]}"
    );
}

#[test]
fn nested_values_are_written_by_the_serializer() {
    let mut friend = async_graphql::indexmap::IndexMap::new();
    friend.insert(async_graphql::Name::new("name"), async_graphql::Value::from("Han"));
    let mut hero = async_graphql::indexmap::IndexMap::new();
    hero.insert(async_graphql::Name::new("name"), async_graphql::Value::from("Luke"));
    hero.insert(
        async_graphql::Name::new("friends"),
        async_graphql::Value::List(vec![async_graphql::Value::Object(friend), async_graphql::Value::Null]),
    );
    hero.insert(async_graphql::Name::new("height"), async_graphql::Value::from(1.72));
    let value = async_graphql::Value::Object(hero);
    let result = ExecutionResult { data: Some(vec![entry("hero", Some(value))]), errors: Vec::new() };
    assert_eq!(
        render_result(&result),
        "{\"data\":{\"hero\":{\"name\":\"Luke\",\"friends\":[{\"name\":\"Han\"},null],\"height\":1.72}}}"
    );
}

#[test]
fn single_response_is_an_object() {
    assert_eq!(render_response(&BatchResponse::Single(hello())), "{\"data\":{\"hello\":\"World\"}}");
}

#[test]
fn batch_response_is_an_array() {
    assert_eq!(
        render_response(&BatchResponse::Batch(vec![hello(), failing()])),
        "[{\"data\":{\"hello\":\"World\"}},{\"data\":{\"bogus\":null},\"errors\":[{\"message\":\"no\",\"path\":[\"bogus\"]}]}]"
    );
    assert_eq!(render_response(&BatchResponse::Batch(vec![hello()])), "[{\"data\":{\"hello\":\"World\"}}]");
    assert_eq!(render_response(&BatchResponse::Batch(Vec::new())), "[]");
}

#[test]
fn wire_form_is_that_of_the_outside_response() {
    let rich = ExecutionResult {
        data: Some(vec![
            entry("a \"b\"", Some(async_graphql::Value::from("x\ny"))),
            entry("n", None),
            entry("list", Some(async_graphql::Value::List(vec![async_graphql::Value::from(1), async_graphql::Value::Null]))),
        ]),
        errors: vec![
            ServerError {
                message: "m \\ \"q\"".to_string(),
                path: vec![PathSegment::Field("n".to_string()), PathSegment::Index(0)],
                locations: vec![SourceLocation { line: 2, column: 7 }],
            },
            ServerError { message: "top".to_string(), path: Vec::new(), locations: Vec::new() },
        ],
    };
    let nothing = ExecutionResult {
        data: None,
        errors: vec![ServerError { message: "bad".to_string(), path: Vec::new(), locations: Vec::new() }],
    };
    for result in [hello(), failing(), rich, nothing] {
        assert_eq!(render_result(&result), serde_json::to_string(&outside(&result)).unwrap());
    }
    let batch = async_graphql::BatchResponse::Batch(vec![outside(&hello()), outside(&failing())]);
    assert_eq!(
        render_response(&BatchResponse::Batch(vec![hello(), failing()])),
        serde_json::to_string(&batch).unwrap()
    );
    let single = async_graphql::BatchResponse::Single(outside(&failing()));
    assert_eq!(render_response(&BatchResponse::Single(failing())), serde_json::to_string(&single).unwrap());
}
