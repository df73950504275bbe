use graphql_gateway::chain::NoExtensions;
use graphql_gateway::extension::CustomExtension;
use graphql_gateway::request::BatchRequest;
use graphql_gateway::schema::StaticSchema;
use graphql_gateway::transport::classify_content_type;
use graphql_gateway::transport::decode_body;
use graphql_gateway::transport::empty_response;
use graphql_gateway::transport::explorer_response;
use graphql_gateway::transport::json_response;
use graphql_gateway::transport::not_found_response;
use graphql_gateway::transport::plan_request;
use graphql_gateway::transport::respond;
use graphql_gateway::transport::route;
use graphql_gateway::transport::serve;
use graphql_gateway::transport::BodyFormat;
use graphql_gateway::transport::HttpResponse;
use graphql_gateway::transport::Plan;
use graphql_gateway::transport::Route;

fn schema() -> StaticSchema {
    StaticSchema::new().field("hello".to_string(), async_graphql::Value::from("World"))
}

fn post(content_type: Option<&str>, body: &str) -> HttpResponse {
    let mut log = Vec::new();
    serve(&schema(), &NoExtensions::new(), "/", "POST", "/", content_type, body.as_bytes().to_vec(), &mut log)
}

#[test]
fn post_json_single_query_returns_data() {
    let response = post(Some("application/json"), "{\"query\":\"{ hello }\"}");
    assert_eq!(response.status, 200);
    assert_eq!(response.content_type.as_deref(), Some("application/json"));
    assert_eq!(response.body, "{\"data\":{\"hello\":\"World\"}}");
}

#[test]
fn post_json_batch_returns_array_with_independent_results() {
    let response = post(Some("application/json"), "[{\"query\":\"{ hello }\"},{\"query\":\"{ bogus }\"}]");
    assert_eq!(response.status, 200);
    let parsed: serde_json::Value = serde_json::from_str(&response.body).unwrap();
    let results = parsed.as_array().unwrap();
    assert_eq!(results.len(), 2);
    assert_eq!(results[0].get("data").unwrap().get("hello").unwrap().as_str(), Some("World"));
    assert!(results[0].get("errors").is_none());
    let errors = results[1].get("errors").unwrap().as_array().unwrap();
    assert_eq!(errors.len(), 1);
    let path = errors[0].get("path").unwrap().as_array().unwrap();
    assert_eq!(path.len(), 1);
    assert_eq!(path[0].as_str(), Some("bogus"));
    assert_eq!(
        response.body,
        "[{\"data\":{\"hello\":\"World\"}},{\"data\":{\"bogus\":null},\"errors\":[{\"message\":\"Unknown field \\\"bogus\\\"\",\"path\":[\"bogus\"]}]}]"
    );
}

#[test]
fn batch_order_does_not_change_each_result() {
    let response = post(Some("application/json"), "[{\"query\":\"{ bogus }\"},{\"query\":\"{ hello }\"}]");
    assert_eq!(
        response.body,
        "[{\"data\":{\"bogus\":null},\"errors\":[{\"message\":\"Unknown field \\\"bogus\\\"\",\"path\":[\"bogus\"]}]},{\"data\":{\"hello\":\"World\"}}]"
    );
}

#[test]
fn get_root_returns_the_explorer_page() {
    let mut log = Vec::new();
    for path in ["/", "/index.html"] {
        let response = serve(&schema(), &NoExtensions::new(), "/graphql", "GET", path, None, Vec::new(), &mut log);
        assert_eq!(response.status, 200);
        assert_eq!(response.content_type.as_deref(), Some("text/html"));
        assert!(!response.body.is_empty());
        assert!(response.body.contains("/graphql"));
    }
    assert!(log.is_empty());
}

#[test]
fn explorer_page_is_configured_with_the_endpoint() {
    let root = explorer_response("/");
    assert_eq!(root.status, 200);
    assert_eq!(root.content_type.as_deref(), Some("text/html"));
    assert!(root.body.contains("createUrl('/')"));
    let other = explorer_response("/api");
    assert!(other.body.contains("createUrl('/api')"));
    assert_ne!(root.body, other.body);
    assert_ne!(root.body, "/");
}

#[test]
fn get_unknown_path_is_not_found() {
    let mut log = Vec::new();
    let response = serve(&schema(), &NoExtensions::new(), "/", "GET", "/unknown", None, Vec::new(), &mut log);
    assert_eq!(response.status, 404);
    assert_eq!(response.content_type, None);
    assert_eq!(response.body, "Not Found");
}

#[test]
fn graphql_body_is_treated_as_the_json_equivalent() {
    let raw = post(Some("application/graphql"), "{ hello }");
    let json = post(Some("application/json"), "{\"query\":\"{ hello }\"}");
    assert_eq!(raw.status, 200);
    assert_eq!(raw.status, json.status);
    assert_eq!(raw.content_type, json.content_type);
    assert_eq!(raw.body, json.body);
    assert_eq!(raw.body, "{\"data\":{\"hello\":\"World\"}}");
}

#[test]
fn text_plain_is_read_as_json() {
    let response = post(Some("text/plain;charset=UTF-8"), "{\"query\":\"{ hello }\"}");
    assert_eq!(response.status, 200);
    assert_eq!(response.body, "{\"data\":{\"hello\":\"World\"}}");
}

#[test]
fn unsupported_or_missing_content_type_executes_nothing() {
    let mut log = Vec::new();
    let chain = NoExtensions::new().with(CustomExtension::new());
    for content_type in [None, Some("text/plain"), Some("application/xml"), Some("Application/JSON"), Some("")] {
        let body = b"{\"query\":\"{ hello }\"}".to_vec();
        let response = serve(&schema(), &chain, "/", "POST", "/", content_type, body, &mut log);
        assert_eq!(response.status, 200);
        assert_eq!(response.content_type.as_deref(), Some("application/json"));
        assert_eq!(response.body, "");
    }
    assert!(log.is_empty());
}

#[test]
fn undecodable_body_executes_nothing() {
    assert_eq!(post(Some("application/json"), "{ hello }").body, "");
    assert_eq!(post(Some("application/json"), "").body, "");
    assert_eq!(post(Some("application/json"), "").status, 200);
    let mut log = Vec::new();
    let response =
        serve(&schema(), &NoExtensions::new(), "/", "POST", "/", Some("application/graphql"), vec![0xff], &mut log);
    assert_eq!(response.status, 200);
    assert_eq!(response.body, "");
}

#[test]
fn graphql_errors_do_not_change_the_status() {
    let response = post(Some("application/graphql"), "{ hello");
    assert_eq!(response.status, 200);
    let parsed: serde_json::Value = serde_json::from_str(&response.body).unwrap();
    assert!(parsed.get("data").unwrap().is_null());
    assert_eq!(parsed.get("errors").unwrap().as_array().unwrap().len(), 1);
}

#[test]
fn routes_by_method_and_path() {
    assert_eq!(route("GET", "/"), Route::Explorer);
    assert_eq!(route("GET", "/index.html"), Route::Explorer);
    assert_eq!(route("POST", "/"), Route::Execute);
    assert_eq!(route("POST", "/index.html"), Route::NotFound);
    assert_eq!(route("GET", "/unknown"), Route::NotFound);
    assert_eq!(route("PUT", "/"), Route::NotFound);
    assert_eq!(route("get", "/"), Route::NotFound);
    assert_eq!(route("POST", ""), Route::NotFound);
    assert_eq!(route("", "/"), Route::NotFound);
}

#[test]
fn classifies_content_types_letter_for_letter() {
    assert_eq!(classify_content_type(Some("application/json")), BodyFormat::Json);
    assert_eq!(classify_content_type(Some("text/plain;charset=UTF-8")), BodyFormat::Json);
    assert_eq!(classify_content_type(Some("application/graphql")), BodyFormat::Graphql);
    assert_eq!(classify_content_type(Some("application/json; charset=utf-8")), BodyFormat::Unsupported);
    assert_eq!(classify_content_type(Some("text/plain")), BodyFormat::Unsupported);
    assert_eq!(classify_content_type(Some("application/graphql ")), BodyFormat::Unsupported);
    assert_eq!(classify_content_type(None), BodyFormat::Unsupported);
}

#[test]
fn decodes_bodies_by_format() {
    let json = decode_body(BodyFormat::Json, b"[{\"query\":\"{ a }\"}]".to_vec()).unwrap();
    assert!(matches!(&json, BatchRequest::Batch(operations) if operations.len() == 1));
    let raw = decode_body(BodyFormat::Graphql, b"[{\"query\":\"{ a }\"}]".to_vec()).unwrap();
    assert!(matches!(&raw, BatchRequest::Single(operation) if operation.query == "[{\"query\":\"{ a }\"}]"));
    assert!(decode_body(BodyFormat::Unsupported, b"{ a }".to_vec()).is_none());
    assert!(decode_body(BodyFormat::Json, b"{ a }".to_vec()).is_none());
    assert!(decode_body(BodyFormat::Json, vec![0xff]).is_none());
    assert!(decode_body(BodyFormat::Graphql, vec![0xff]).is_none());
}

#[test]
fn plans_follow_route_and_body() {
    assert!(matches!(plan_request("GET", "/", None, Vec::new()), Plan::Explorer));
    assert!(matches!(plan_request("GET", "/", Some("application/json"), b"{}".to_vec()), Plan::Explorer));
    assert!(matches!(plan_request("DELETE", "/", None, Vec::new()), Plan::NotFound));
    assert!(matches!(plan_request("POST", "/graphql", Some("application/json"), b"{}".to_vec()), Plan::NotFound));
    assert!(matches!(plan_request("POST", "/", None, b"{ a }".to_vec()), Plan::Empty));
    assert!(matches!(plan_request("POST", "/", Some("application/json"), b"nonsense".to_vec()), Plan::Empty));
    let plan = plan_request("POST", "/", Some("application/graphql"), b"{ a }".to_vec());
    assert!(matches!(&plan, Plan::Execute(BatchRequest::Single(operation)) if operation.query == "{ a }"));
    let plan = plan_request("POST", "/", Some("application/json"), b"{\"query\":\"{ b }\"}".to_vec());
    assert!(matches!(&plan, Plan::Execute(BatchRequest::Single(operation)) if operation.query == "{ b }"));
}

#[test]
fn respond_carries_out_each_plan() {
    let mut log = Vec::new();
    let chain = NoExtensions::new().with(CustomExtension::new());
    assert_eq!(respond(&schema(), &chain, "/", Plan::NotFound, &mut log).status, 404);
    assert_eq!(respond(&schema(), &chain, "/", Plan::Empty, &mut log).body, "");
    assert_eq!(respond(&schema(), &chain, "/e", Plan::Explorer, &mut log).body, explorer_response("/e").body);
    assert!(log.is_empty());
    let plan = plan_request("POST", "/", Some("application/graphql"), b"{ hello }".to_vec());
    let response = respond(&schema(), &chain, "/", plan, &mut log);
    assert_eq!(response.body, "{\"data\":{\"hello\":\"World\"}}");
    assert_eq!(log, vec!["[Execute] { hello }"]);
}

#[test]
fn fixed_responses() {
    let json = json_response("{}".to_string());
    assert_eq!((json.status, json.content_type.as_deref(), json.body.as_str()), (200, Some("application/json"), "{}"));
    let empty = empty_response();
    assert_eq!((empty.status, empty.content_type.as_deref(), empty.body.as_str()), (200, Some("application/json"), ""));
    let missing = not_found_response();
    assert_eq!((missing.status, missing.content_type.as_deref(), missing.body.as_str()), (404, None, "Not Found"));
}

#[test]
fn explorer_page_holds_a_plain_endpoint_and_escapes_the_rest() {
    for endpoint in ["/", "/graphql", "/v1/api", "", "http://localhost:8000/"] {
        assert!(explorer_response(endpoint).body.contains(endpoint));
        assert!(!explorer_response(endpoint).body.is_empty());
    }
    let escaped = explorer_response("/a?b=<c>");
    assert!(!escaped.body.contains("/a?b=<c>"));
    assert!(escaped.body.contains("/a?b&#x3D;&lt;c&gt;"));
}
