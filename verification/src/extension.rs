//! The extensions that the gateway ships.

use crate::chain::logs_around_execute;
use crate::chain::logs_around_parse_query;
use crate::chain::logs_around_resolve;
use crate::chain::passes_execute;
use crate::chain::passes_parse_query;
use crate::chain::passes_resolve;
use crate::chain::Extension;
use crate::chain::NextExecute;
use crate::chain::NextParseQuery;
use crate::chain::NextResolve;
use crate::chain::Trace;
use crate::document::is_introspection;
use crate::document::DocumentView;
use crate::document::parse_outcome_view;
use crate::document::ParseOutcome;
use crate::document::ParseOutcomeView;
use crate::document::ParsedDocument;
use crate::error::emit;
use crate::error::rendered_errors;
use crate::error::report_errors;
use crate::response::ExecutionResult;
use crate::response::ExecutionResultView;
use crate::response::ResolveInfo;
use crate::response::ResolveInfoView;
use crate::response::ResolveOutcome;
use crate::response::ResolveOutcomeView;
use vstd::prelude::*;
use vstd::string::StringExecFns;

verus! {

/// The line that reports an executed document, from its rendering.
pub open spec fn execute_line(rendering: Seq<char>) -> Seq<char> {
    "[Execute] "@ + rendering
}

/// The line that reports a document, if it is reported: none for an
/// introspection query, else the line of the document's rendering.
pub open spec fn reported_line(document: DocumentView) -> Option<Seq<char>> {
    if is_introspection(document) {
        None
    } else {
        Some(execute_line(document.rendering))
    }
}

/// Logs each executed query, except introspection queries, and each error of
/// each result. It alters neither documents nor results.
#[derive(Clone, Copy, Debug, PartialEq, Eq, Structural)]
pub struct CustomExtension;

impl CustomExtension {
    /// The logging extension. It has no state.
    pub fn new() -> (extension: CustomExtension)
        ensures
            passes_resolve(&extension),
    {
        CustomExtension
    }

    /// A fresh instance for one request, so that no state is shared between
    /// requests.
    pub fn create(&self) -> (extension: CustomExtension)
        ensures
            extension == *self,
    {
        CustomExtension
    }

    /// Whether the query of this document is to be logged: not for an
    /// introspection query.
    pub fn should_log(&self, document: &ParsedDocument) -> (log_it: bool)
        ensures
            log_it == !is_introspection(document.deep_view()),
    {
        !document.is_introspection()
    }

    /// The line that reports an executed document, from its rendering.
    pub fn execute_line(&self, rendering: &str) -> (line: String)
        ensures
            line@ == execute_line(rendering@),
    {
        let mut line = String::from_str("[Execute] ");
        line.append(rendering);
        line
    }

    /// The line that reports a document, if it is reported: none for an
    /// introspection query, else the line of the document's rendering.
    pub fn report(&self, document: &ParsedDocument) -> (line: Option<String>)
        ensures
            line.deep_view() == reported_line(document.deep_view()),
    {
        if self.should_log(document) {
            Some(self.execute_line(document.rendering.as_str()))
        } else {
            None
        }
    }
}

impl Extension for CustomExtension {
    open spec fn parse_query_model(
        &self,
        query: Seq<char>,
        variables: async_graphql::Variables,
        next: spec_fn(Trace) -> (ParseOutcomeView, Trace),
        log: Trace,
    ) -> (ParseOutcomeView, Trace) {
        let (outcome, after) = next(log);
        match outcome {
            Ok(document) => match reported_line(document) {
                Some(line) => (outcome, after.push(line)),
                None => (outcome, after),
            },
            Err(_) => (outcome, after),
        }
    }

    open spec fn execute_model(
        &self,
        operation_name: Option<Seq<char>>,
        next: spec_fn(Trace) -> (ExecutionResultView, Trace),
        log: Trace,
    ) -> (ExecutionResultView, Trace) {
        let (result, after) = next(log);
        (result, after + rendered_errors(result.errors))
    }

    /// Lets the document be parsed, then logs the document that came back, by
    /// its rendering, unless parsing failed or the document is an introspection
    /// query. The line is built from the returned document, not from the query
    /// text that the hook was given. The outcome of parsing is returned as it
    /// came.
    fn parse_query<N: NextParseQuery>(
        &self,
        query: &str,
        variables: &async_graphql::Variables,
        next: N,
        log: &mut Vec<String>,
    ) -> (outcome: ParseOutcome) {
        let outcome = next.run(log);
        match &outcome {
            Ok(document) => match self.report(document) {
                Some(line) => emit(log, line),
                None => {},
            },
            Err(_) => {},
        }
        outcome
    }

    /// Lets the operation execute, then logs one line for each error of the
    /// result, in order: with the dotted path where the error has one, else with
    /// the message only. The result is returned as it came.
    fn execute<N: NextExecute>(&self, operation_name: Option<&str>, next: N, log: &mut Vec<String>) -> (result:
        ExecutionResult) {
        let result = next.run(log);
        report_errors(&result.errors, log);
        result
    }

    fn resolve<N: NextResolve>(&self, info: &ResolveInfo, next: N, log: &mut Vec<String>) -> (outcome:
        ResolveOutcome) {
        next.run(log)
    }
}

/// An introspection query, and only that or a failed parse, is not logged:
/// around a parser that logs nothing, the parse hook leaves the log as it was
/// exactly when parsing failed or some query operation of the document selects
/// `__schema` at top level, and otherwise adds the one line of the returned
/// document's rendering.
pub proof fn lemma_introspection_suppresses_logging(
    extension: CustomExtension,
    query: Seq<char>,
    variables: async_graphql::Variables,
    parsed: ParseOutcomeView,
    log: Trace,
)
    ensures
        ({
            let after = extension.parse_query_model(query, variables, |l: Trace| (parsed, l), log);
            &&& after.0 == parsed
            &&& after.1 == (match parsed {
                Ok(document) => if is_introspection(document) {
                    log
                } else {
                    log.push(execute_line(document.rendering))
                },
                Err(_) => log,
            })
        }),
{
}

/// The extension that intercepts nothing.
#[derive(Clone, Copy, Debug, PartialEq, Eq, Structural)]
pub struct PassThrough;

impl Extension for PassThrough {
    fn parse_query<N: NextParseQuery>(
        &self,
        query: &str,
        variables: &async_graphql::Variables,
        next: N,
        log: &mut Vec<String>,
    ) -> (outcome: ParseOutcome) {
        next.run(log)
    }

    fn execute<N: NextExecute>(&self, operation_name: Option<&str>, next: N, log: &mut Vec<String>) -> (result:
        ExecutionResult) {
        next.run(log)
    }

    fn resolve<N: NextResolve>(&self, info: &ResolveInfo, next: N, log: &mut Vec<String>) -> (outcome:
        ResolveOutcome) {
        next.run(log)
    }
}

/// [`PassThrough`] passes through in every phase.
pub proof fn lemma_pass_through(extension: PassThrough)
    ensures
        passes_parse_query(&extension),
        passes_execute(&extension),
        passes_resolve(&extension),
{
}

/// The line that opens a span: `> label phase`.
pub open spec fn span_opened(label: Seq<char>, phase: Seq<char>) -> Seq<char> {
    "> "@ + label + " "@ + phase
}

/// The line that closes a span: `< label phase`.
pub open spec fn span_closed(label: Seq<char>, phase: Seq<char>) -> Seq<char> {
    "< "@ + label + " "@ + phase
}

/// The phase text of a field resolution: `resolve` and the response key.
pub open spec fn resolve_phase(info: ResolveInfoView) -> Seq<char> {
    "resolve "@ + info.response_key
}

/// Traces every phase as a span: one line when the phase is entered and one
/// when it is left, each with the tracer's label. It observes and alters
/// nothing.
#[derive(Debug, PartialEq, Eq)]
pub struct Tracing {
    pub label: String,
}

impl Tracing {
    /// A tracer whose lines carry `label`.
    pub fn new(label: String) -> (tracing: Tracing)
        ensures
            tracing.label == label,
    {
        Tracing { label }
    }

    fn span_line(&self, mark: &str, phase: &str) -> (line: String)
        ensures
            line@ == mark@ + self.label@ + " "@ + phase@,
    {
        let mut line = String::from_str(mark);
        line.append(self.label.as_str());
        line.append(" ");
        line.append(phase);
        line
    }

    fn resolve_phase(info: &ResolveInfo) -> (phase: String)
        ensures
            phase@ == resolve_phase(info.deep_view()),
    {
        let mut phase = String::from_str("resolve ");
        phase.append(info.response_key.as_str());
        phase
    }
}

impl Extension for Tracing {
    open spec fn parse_query_model(
        &self,
        query: Seq<char>,
        variables: async_graphql::Variables,
        next: spec_fn(Trace) -> (ParseOutcomeView, Trace),
        log: Trace,
    ) -> (ParseOutcomeView, Trace) {
        let (outcome, after) = next(log.push(span_opened(self.label@, "parse"@)));
        (outcome, after.push(span_closed(self.label@, "parse"@)))
    }

    open spec fn execute_model(
        &self,
        operation_name: Option<Seq<char>>,
        next: spec_fn(Trace) -> (ExecutionResultView, Trace),
        log: Trace,
    ) -> (ExecutionResultView, Trace) {
        let (result, after) = next(log.push(span_opened(self.label@, "execute"@)));
        (result, after.push(span_closed(self.label@, "execute"@)))
    }

    open spec fn resolve_model(
        &self,
        info: ResolveInfoView,
        next: spec_fn(Trace) -> (ResolveOutcomeView, Trace),
        log: Trace,
    ) -> (ResolveOutcomeView, Trace) {
        let (outcome, after) = next(log.push(span_opened(self.label@, resolve_phase(info))));
        (outcome, after.push(span_closed(self.label@, resolve_phase(info))))
    }

    fn parse_query<N: NextParseQuery>(
        &self,
        query: &str,
        variables: &async_graphql::Variables,
        next: N,
        log: &mut Vec<String>,
    ) -> (outcome: ParseOutcome) {
        emit(log, self.span_line("> ", "parse"));
        let outcome = next.run(log);
        emit(log, self.span_line("< ", "parse"));
        outcome
    }

    fn execute<N: NextExecute>(&self, operation_name: Option<&str>, next: N, log: &mut Vec<String>) -> (result:
        ExecutionResult) {
        emit(log, self.span_line("> ", "execute"));
        let result = next.run(log);
        emit(log, self.span_line("< ", "execute"));
        result
    }

    /// Traces one field resolution. The value or error of the field is returned
    /// as the resolver gave it.
    fn resolve<N: NextResolve>(&self, info: &ResolveInfo, next: N, log: &mut Vec<String>) -> (outcome:
        ResolveOutcome) {
        let phase = Tracing::resolve_phase(info);
        emit(log, self.span_line("> ", phase.as_str()));
        let outcome = next.run(log);
        emit(log, self.span_line("< ", phase.as_str()));
        outcome
    }
}

/// In every phase [`Tracing`] logs its opening line, runs `next`, and logs its
/// closing line.
pub proof fn lemma_tracing_logs_around(
    tracing: Tracing,
    query: Seq<char>,
    name: Option<Seq<char>>,
    info: ResolveInfoView,
)
    ensures
        logs_around_parse_query(
            &tracing,
            query,
            span_opened(tracing.label@, "parse"@),
            span_closed(tracing.label@, "parse"@),
        ),
        logs_around_execute(
            &tracing,
            name,
            span_opened(tracing.label@, "execute"@),
            span_closed(tracing.label@, "execute"@),
        ),
        logs_around_resolve(
            &tracing,
            info,
            span_opened(tracing.label@, resolve_phase(info)),
            span_closed(tracing.label@, resolve_phase(info)),
        ),
{
}

} // verus!
