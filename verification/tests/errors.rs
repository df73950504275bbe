use graphql_gateway::document::SourceLocation;
use graphql_gateway::error::emit;
use graphql_gateway::error::report_errors;
use graphql_gateway::error::ServerError;
use graphql_gateway::path::PathSegment;

fn error(message: &str, path: Vec<PathSegment>) -> ServerError {
    ServerError { message: message.to_string(), path, locations: Vec::new() }
}

#[test]
fn error_with_path_renders_path_and_message() {
    let failing = error(
        "boom",
        vec![PathSegment::Field("a".to_string()), PathSegment::Index(2), PathSegment::Field("b".to_string())],
    );
    assert_eq!(failing.render(), "[Error] path=a.2.b message=boom");
}

#[test]
fn error_without_path_renders_message_only() {
    assert_eq!(error("boom", Vec::new()).render(), "[Error] message=boom");
}

#[test]
fn top_level_error_has_no_path() {
    let location = SourceLocation { line: 1, column: 3 };
    let failing = ServerError::top_level("bad".to_string(), vec![location]);
    assert!(failing.path.is_empty());
    assert_eq!(failing.message, "bad");
    assert_eq!(failing.locations, vec![location]);
    assert_eq!(failing.render(), "[Error] message=bad");
}

#[test]
fn emit_appends_one_line() {
    let mut log = vec!["first".to_string()];
    emit(&mut log, "second".to_string());
    assert_eq!(log, vec!["first".to_string(), "second".to_string()]);
}

#[test]
fn errors_are_reported_in_order() {
    let errors = vec![
        error("one", vec![PathSegment::Field("x".to_string())]),
        error("two", Vec::new()),
        error("three", vec![PathSegment::Index(0)]),
    ];
    let mut log = vec!["kept".to_string()];
    report_errors(&errors, &mut log);
    assert_eq!(
        log,
        vec![
            "kept".to_string(),
            "[Error] path=x message=one".to_string(),
            "[Error] message=two".to_string(),
            "[Error] path=0 message=three".to_string(),
        ]
    );
}

#[test]
fn no_errors_report_nothing() {
    let mut log: Vec<String> = Vec::new();
    report_errors(&Vec::new(), &mut log);
    assert!(log.is_empty());
}
