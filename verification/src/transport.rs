//! The transport adapter: routing by method and path, classification of the
//! content type, decoding of the body, and the responses.

use crate::chain::ExtensionChain;
use crate::chain::Trace;
use crate::document::ParseOutcomeView;
use crate::invoker::are_parses_of;
use crate::invoker::batch_executed;
use crate::invoker::execute_batch;
use crate::invoker::lemma_same_operations_same_results;
use crate::invoker::same_operation;
use crate::json::render_response;
use crate::json::response_json;
use crate::request::bound_names;
use crate::request::decode_graphql_request;
use crate::request::decode_json_request;
use crate::request::decode_text;
use crate::request::decoded_json;
use crate::request::BatchRequest;
use crate::request::BatchRequestView;
use crate::request::DecodeError;
use crate::response::BatchResponseView;
use crate::response::ExecutionResultView;
use crate::schema::Schema;
use crate::text::text_eq;
use vstd::prelude::*;
use vstd::string::StringExecFns;
use vstd::utf8::decode_utf8;
use vstd::utf8::valid_utf8;

verus! {

/// The explorer page that is configured with an endpoint.
pub uninterp spec fn explorer_html(endpoint: Seq<char>) -> Seq<char>;

/// Whether the page generator writes a character in another form than the
/// character itself: the two angle brackets, the two quotes, the ampersand, the
/// backtick and the equals sign.
pub open spec fn is_escaped(c: char) -> bool {
    c == '<' || c == '>' || c == '"' || c == '&' || c == '\'' || c == '`' || c == '='
}

/// Whether a text holds no character that the page generator escapes.
pub open spec fn is_plain(text: Seq<char>) -> bool {
    forall|i: int| 0 <= i < text.len() ==> !is_escaped(#[trigger] text[i])
}

/// Whether `text` stands somewhere in `page`, letter for letter.
pub open spec fn holds_text(page: Seq<char>, text: Seq<char>) -> bool {
    exists|i: int| 0 <= i && i + text.len() <= page.len() && #[trigger] page.subrange(i, i + text.len()) == text
}

/// Calls `async_graphql::http::GraphiQLSource`: `build`, `endpoint` with the
/// given endpoint, `finish`. The page is a function of the endpoint alone, and
/// it is never empty: it is a fixed document with the endpoint filled in, as
/// the address that the page sends its queries to. The generator escapes
/// seven characters; an endpoint without them stands in the page as it is.
#[verifier::external_body]
fn explorer_page(endpoint: &str) -> (page: String)
    ensures
        page@ == explorer_html(endpoint@),
        page@.len() > 0,
        is_plain(endpoint@) ==> holds_text(page@, endpoint@),
{
    async_graphql::http::GraphiQLSource::build().endpoint(endpoint).finish()
}

/// Where a request goes.
#[derive(Clone, Copy, Debug, PartialEq, Eq, Structural)]
pub enum Route {
    /// The interactive explorer page.
    Explorer,
    /// The execution endpoint.
    Execute,
    /// Nothing is served there.
    NotFound,
}

/// How the body of a request to the execution endpoint is to be read.
#[derive(Clone, Copy, Debug, PartialEq, Eq, Structural)]
pub enum BodyFormat {
    /// A JSON-encoded request: an object or an array.
    Json,
    /// The query text itself.
    Graphql,
    /// A content type that the gateway does not read, or none.
    Unsupported,
}

/// `GET /` and `GET /index.html` go to the explorer, `POST /` to the execution
/// endpoint, everything else nowhere.
pub open spec fn routed(method: Seq<char>, path: Seq<char>) -> Route {
    if method == "GET"@ && (path == "/"@ || path == "/index.html"@) {
        Route::Explorer
    } else if method == "POST"@ && path == "/"@ {
        Route::Execute
    } else {
        Route::NotFound
    }
}

/// `application/json` and `text/plain;charset=UTF-8` announce JSON,
/// `application/graphql` the query text; the header's value is taken letter for
/// letter.
pub open spec fn classified(content_type: Option<Seq<char>>) -> BodyFormat {
    match content_type {
        Some(value) => if value == "application/json"@ || value == "text/plain;charset=UTF-8"@ {
            BodyFormat::Json
        } else if value == "application/graphql"@ {
            BodyFormat::Graphql
        } else {
            BodyFormat::Unsupported
        },
        None => BodyFormat::Unsupported,
    }
}

/// Routes a request by its method and path.
pub fn route(method: &str, path: &str) -> (route: Route)
    ensures
        route == routed(method@, path@),
{
    if text_eq(method, "GET") && (text_eq(path, "/") || text_eq(path, "/index.html")) {
        Route::Explorer
    } else if text_eq(method, "POST") && text_eq(path, "/") {
        Route::Execute
    } else {
        Route::NotFound
    }
}

/// Classifies the value of the `Content-Type` header, if there is one.
pub fn classify_content_type(content_type: Option<&str>) -> (format: BodyFormat)
    ensures
        format == classified(content_type.deep_view()),
{
    match content_type {
        Some(value) => {
            if text_eq(value, "application/json") || text_eq(value, "text/plain;charset=UTF-8") {
                BodyFormat::Json
            } else if text_eq(value, "application/graphql") {
                BodyFormat::Graphql
            } else {
                BodyFormat::Unsupported
            }
        },
        None => BodyFormat::Unsupported,
    }
}

/// Whether `request` is what a body in a format decodes to. A JSON body is
/// UTF-8 text that encodes the request. A GraphQL body is UTF-8 text that is
/// the query of a single operation without name, variables or extensions. An
/// unsupported format decodes to nothing.
pub open spec fn decodes_to(format: BodyFormat, body: Seq<u8>, request: BatchRequest) -> bool {
    match format {
        BodyFormat::Json => valid_utf8(body) && decoded_json(decode_utf8(body)) == Some(request.deep_view()),
        BodyFormat::Graphql => {
            &&& valid_utf8(body)
            &&& request matches BatchRequest::Single(operation)
            &&& operation.query@ == decode_utf8(body)
            &&& operation.operation_name is None
            &&& bound_names(operation.variables) == Set::<Seq<char>>::empty()
            &&& operation.extensions@ == Map::<String, async_graphql::Value>::empty()
        },
        BodyFormat::Unsupported => false,
    }
}

/// Whether a body in a format decodes to a request at all.
pub open spec fn is_decodable(format: BodyFormat, body: Seq<u8>) -> bool {
    match format {
        BodyFormat::Json => valid_utf8(body) && decoded_json(decode_utf8(body)) is Some,
        BodyFormat::Graphql => valid_utf8(body),
        BodyFormat::Unsupported => false,
    }
}

/// Decodes the fully read body of a request in the given format. Nothing is
/// decoded for an unsupported format, for a body that is not UTF-8 and for a
/// JSON body that encodes no request.
pub fn decode_body(format: BodyFormat, body: Vec<u8>) -> (request: Option<BatchRequest>)
    ensures
        request is Some <==> is_decodable(format, body@),
        request matches Some(decoded) ==> decodes_to(format, body@, decoded),
{
    match format {
        BodyFormat::Json => match decode_text(body) {
            Ok(text) => match decode_json_request(text.as_str()) {
                Ok(request) => Some(request),
                Err(_) => None,
            },
            Err(_) => None,
        },
        BodyFormat::Graphql => match decode_text(body) {
            Ok(text) => Some(decode_graphql_request(text)),
            Err(_) => None,
        },
        BodyFormat::Unsupported => None,
    }
}

/// What is to be done for a request.
#[derive(Debug, PartialEq)]
pub enum Plan {
    /// Serve the explorer page.
    Explorer,
    /// Execute the request and serve its results.
    Execute(BatchRequest),
    /// Execute nothing and serve an empty body: the content type is not
    /// supported or the body does not decode.
    Empty,
    /// Serve "not found".
    NotFound,
}

/// Whether `plan` is what is to be done for a request.
pub open spec fn planned(
    method: Seq<char>,
    path: Seq<char>,
    content_type: Option<Seq<char>>,
    body: Seq<u8>,
    plan: Plan,
) -> bool {
    match routed(method, path) {
        Route::Explorer => plan is Explorer,
        Route::NotFound => plan is NotFound,
        Route::Execute => match plan {
            Plan::Execute(request) => decodes_to(classified(content_type), body, request),
            Plan::Empty => !is_decodable(classified(content_type), body),
            _ => false,
        },
    }
}

/// Decides what is to be done for a request, from its method, its path, the
/// value of its `Content-Type` header and its fully read body.
pub fn plan_request(method: &str, path: &str, content_type: Option<&str>, body: Vec<u8>) -> (plan: Plan)
    ensures
        planned(method@, path@, content_type.deep_view(), body@, plan),
{
    match route(method, path) {
        Route::Explorer => Plan::Explorer,
        Route::NotFound => Plan::NotFound,
        Route::Execute => match decode_body(classify_content_type(content_type), body) {
            Some(request) => Plan::Execute(request),
            None => Plan::Empty,
        },
    }
}

/// A response: the status, the content type where one is set, and the body.
#[derive(Debug, PartialEq, Eq)]
pub struct HttpResponse {
    pub status: u16,
    pub content_type: Option<String>,
    pub body: String,
}

/// The mathematical value of an [`HttpResponse`].
pub struct HttpResponseView {
    pub status: u16,
    pub content_type: Option<Seq<char>>,
    pub body: Seq<char>,
}

impl DeepView for HttpResponse {
    type V = HttpResponseView;

    open spec fn deep_view(&self) -> HttpResponseView {
        HttpResponseView { status: self.status, content_type: self.content_type.deep_view(), body: self.body@ }
    }
}

/// The explorer page, status 200, as `text/html`.
pub open spec fn explorer_view(endpoint: Seq<char>) -> HttpResponseView {
    HttpResponseView { status: 200, content_type: Some("text/html"@), body: explorer_html(endpoint) }
}

/// A body with status 200, as `application/json`.
pub open spec fn json_view(body: Seq<char>) -> HttpResponseView {
    HttpResponseView { status: 200, content_type: Some("application/json"@), body }
}

/// Status 404 with a plain body and no content type.
pub open spec fn not_found_view() -> HttpResponseView {
    HttpResponseView { status: 404, content_type: None, body: "Not Found"@ }
}

/// The response that serves the explorer page for an endpoint. The page is
/// not empty, and it holds the endpoint, letter for letter, where the endpoint
/// has none of the characters that the page generator escapes.
pub fn explorer_response(endpoint: &str) -> (response: HttpResponse)
    ensures
        response.deep_view() == explorer_view(endpoint@),
        response.body@.len() > 0,
        is_plain(endpoint@) ==> holds_text(response.body@, endpoint@),
{
    HttpResponse { status: 200, content_type: Some(String::from_str("text/html")), body: explorer_page(endpoint) }
}

/// The response that serves a JSON body. Errors of operations are data: the
/// status is 200 whatever the results hold.
pub fn json_response(body: String) -> (response: HttpResponse)
    ensures
        response.deep_view() == json_view(body@),
{
    HttpResponse { status: 200, content_type: Some(String::from_str("application/json")), body }
}

/// The response where nothing was executed: an empty body with status 200.
pub fn empty_response() -> (response: HttpResponse)
    ensures
        response.deep_view() == json_view(Seq::empty()),
{
    json_response(String::new())
}

/// The response for a request that goes nowhere.
pub fn not_found_response() -> (response: HttpResponse)
    ensures
        response.deep_view() == not_found_view(),
{
    HttpResponse { status: 404, content_type: None, body: String::from_str("Not Found") }
}

/// The results in the shape of the request: one result for a single
/// operation, a sequence for a batch.
pub open spec fn shaped(request: BatchRequestView, results: Seq<ExecutionResultView>) -> BatchResponseView {
    match request {
        BatchRequestView::Single(_) => BatchResponseView::Single(results[0]),
        BatchRequestView::Batch(_) => BatchResponseView::Batch(results),
    }
}

/// Whether carrying out `plan` gives `response` and takes the log from `before`
/// to `after`. Only execution logs. An executed request is answered with the
/// JSON of its results, in its own shape; the results are those of parses of
/// its operations' queries.
pub open spec fn responded<S: Schema, C: ExtensionChain>(
    schema: &S,
    chain: &C,
    endpoint: Seq<char>,
    plan: Plan,
    before: Trace,
    response: HttpResponseView,
    after: Trace,
) -> bool {
    match plan {
        Plan::Explorer => response == explorer_view(endpoint) && after == before,
        Plan::NotFound => response == not_found_view() && after == before,
        Plan::Empty => response == json_view(Seq::empty()) && after == before,
        Plan::Execute(request) => exists|parsed: Seq<ParseOutcomeView>|
            are_parses_of(request.deep_view().operations(), parsed) && ({
                let executed = #[trigger] batch_executed(schema, chain, request.deep_view().operations(), parsed, before);
                &&& response == json_view(response_json(shaped(request.deep_view(), executed.0)))
                &&& after == executed.1
            }),
    }
}

/// Carries out a plan against a schema, through a chain of extensions.
pub fn respond<S: Schema, C: ExtensionChain>(
    schema: &S,
    chain: &C,
    endpoint: &str,
    plan: Plan,
    log: &mut Vec<String>,
) -> (response: HttpResponse)
    ensures
        responded(schema, chain, endpoint@, plan, old(log).deep_view(), response.deep_view(), final(log).deep_view()),
        plan is Explorer ==> response.body@.len() > 0,
        plan is Explorer && is_plain(endpoint@) ==> holds_text(response.body@, endpoint@),
{
    match plan {
        Plan::Explorer => explorer_response(endpoint),
        Plan::NotFound => not_found_response(),
        Plan::Empty => empty_response(),
        Plan::Execute(request) => {
            let results = execute_batch(schema, chain, &request, log);
            let response = json_response(render_response(&results));
            proof {
                let operations = request.deep_view().operations();
                let parsed = choose|parsed: Seq<ParseOutcomeView>|
                    are_parses_of(operations, parsed) && (results.deep_view().results(), log.deep_view())
                        == #[trigger] batch_executed(schema, chain, operations, parsed, old(log).deep_view());
                let executed = batch_executed(schema, chain, operations, parsed, old(log).deep_view());
                assert(results.deep_view() == shaped(request.deep_view(), executed.0)) by {
                    match results.deep_view() {
                        BatchResponseView::Single(result) => {
                            assert(seq![result][0] == result);
                        },
                        BatchResponseView::Batch(_) => {},
                    }
                }
            }
            response
        },
    }
}

/// Serves one request from its method, path, content type and fully read body:
/// plans it and carries the plan out.
pub fn serve<S: Schema, C: ExtensionChain>(
    schema: &S,
    chain: &C,
    endpoint: &str,
    method: &str,
    path: &str,
    content_type: Option<&str>,
    body: Vec<u8>,
    log: &mut Vec<String>,
) -> (response: HttpResponse)
    ensures
        exists|plan: Plan|
            planned(method@, path@, content_type.deep_view(), body@, plan) && #[trigger] responded(
                schema,
                chain,
                endpoint@,
                plan,
                old(log).deep_view(),
                response.deep_view(),
                final(log).deep_view(),
            ),
        routed(method@, path@) is NotFound <==> response.status == 404,
        routed(method@, path@) !is NotFound ==> response.status == 200,
        routed(method@, path@) is Explorer ==> response.body@.len() > 0,
        routed(method@, path@) is Explorer && is_plain(endpoint@) ==> holds_text(response.body@, endpoint@),
{
    let plan = plan_request(method, path, content_type, body);
    respond(schema, chain, endpoint, plan, log)
}

/// A body that is the query text itself is treated as the JSON body that
/// encodes the same operation: where a JSON body decodes to the single
/// operation with the query, the variables and the name of the one that the
/// GraphQL body decodes to, whatever answers the one request answers the
/// other, with the same log.
pub proof fn lemma_graphql_body_as_json_equivalent<S: Schema, C: ExtensionChain>(
    schema: &S,
    chain: &C,
    endpoint: Seq<char>,
    raw: Seq<u8>,
    graphql: BatchRequest,
    encoded: Seq<u8>,
    json: BatchRequest,
    before: Trace,
    response: HttpResponseView,
    after: Trace,
)
    requires
        decodes_to(BodyFormat::Graphql, raw, graphql),
        decodes_to(BodyFormat::Json, encoded, json),
        json.deep_view() is Single,
        same_operation(graphql.deep_view().operations()[0], json.deep_view().operations()[0]),
    ensures
        responded(schema, chain, endpoint, Plan::Execute(graphql), before, response, after) <==> responded(
            schema,
            chain,
            endpoint,
            Plan::Execute(json),
            before,
            response,
            after,
        ),
{
    let first = graphql.deep_view().operations();
    let second = json.deep_view().operations();
    assert(first.len() == 1 && second.len() == 1);
    assert forall|parsed: Seq<ParseOutcomeView>|
        batch_executed(schema, chain, first, parsed, before) == batch_executed(
            schema,
            chain,
            second,
            parsed,
            before,
        ) by {
        lemma_same_operations_same_results(schema, chain, first, second, parsed, before);
    }
    assert forall|parsed: Seq<ParseOutcomeView>| are_parses_of(first, parsed) == are_parses_of(second, parsed) by {
        if are_parses_of(first, parsed) {
            assert(are_parses_of(second, parsed));
        }
        if are_parses_of(second, parsed) {
            assert(are_parses_of(first, parsed));
        }
    }
    if responded(schema, chain, endpoint, Plan::Execute(graphql), before, response, after) {
        let parsed = choose|parsed: Seq<ParseOutcomeView>|
            are_parses_of(first, parsed) && ({
                let executed = #[trigger] batch_executed(schema, chain, first, parsed, before);
                &&& response == json_view(response_json(shaped(graphql.deep_view(), executed.0)))
                &&& after == executed.1
            });
        assert(are_parses_of(second, parsed));
        assert(batch_executed(schema, chain, second, parsed, before) == batch_executed(
            schema,
            chain,
            first,
            parsed,
            before,
        ));
    }
    if responded(schema, chain, endpoint, Plan::Execute(json), before, response, after) {
        let parsed = choose|parsed: Seq<ParseOutcomeView>|
            are_parses_of(second, parsed) && ({
                let executed = #[trigger] batch_executed(schema, chain, second, parsed, before);
                &&& response == json_view(response_json(shaped(json.deep_view(), executed.0)))
                &&& after == executed.1
            });
        assert(are_parses_of(first, parsed));
        assert(batch_executed(schema, chain, first, parsed, before) == batch_executed(
            schema,
            chain,
            second,
            parsed,
            before,
        ));
    }
}

} // verus!
