//! The extension pipeline: extensions that wrap query parsing, execution and
//! field resolution, and their composition into chains.

use crate::document::parse_outcome_view;
use crate::document::ParseOutcome;
use crate::document::ParseOutcomeView;
use crate::response::resolve_outcome_view;
use crate::response::ExecutionResult;
use crate::response::ExecutionResultView;
use crate::response::ResolveInfo;
use crate::response::ResolveInfoView;
use crate::response::ResolveOutcome;
use crate::response::ResolveOutcomeView;
use vstd::prelude::*;

verus! {

/// The lines logged so far, oldest first.
pub type Trace = Seq<Seq<char>>;

/// The rest of a chain and the parsing itself, seen from a parse hook.
pub trait NextParseQuery: Sized {
    /// What running this continuation does: from the log before it to the
    /// outcome and the log after it.
    spec fn model(&self) -> spec_fn(Trace) -> (ParseOutcomeView, Trace);

    fn run(self, log: &mut Vec<String>) -> (outcome: ParseOutcome)
        ensures
            (parse_outcome_view(outcome), final(log).deep_view()) == (self.model())(old(log).deep_view()),
    ;
}

/// The rest of a chain and the execution itself, seen from an execute hook.
pub trait NextExecute: Sized {
    spec fn model(&self) -> spec_fn(Trace) -> (ExecutionResultView, Trace);

    fn run(self, log: &mut Vec<String>) -> (result: ExecutionResult)
        ensures
            (result.deep_view(), final(log).deep_view()) == (self.model())(old(log).deep_view()),
    ;
}

/// The rest of a chain and the resolver itself, seen from a resolve hook.
pub trait NextResolve: Sized {
    spec fn model(&self) -> spec_fn(Trace) -> (ResolveOutcomeView, Trace);

    fn run(self, log: &mut Vec<String>) -> (outcome: ResolveOutcome)
        ensures
            (resolve_outcome_view(outcome), final(log).deep_view()) == (self.model())(old(log).deep_view()),
    ;
}

/// An interceptor of the three phases. Each hook is handed `next`, the rest of
/// the chain with the phase itself at its end, and decides what happens around
/// it. A hook that does not intercept runs `next` at once and returns what it
/// returned. Beside each hook stands its model: what the hook does, as a
/// function of what `next` does.
pub trait Extension {
    /// What the parse hook does. Unless an extension says otherwise, it passes
    /// through.
    open spec fn parse_query_model(
        &self,
        query: Seq<char>,
        variables: async_graphql::Variables,
        next: spec_fn(Trace) -> (ParseOutcomeView, Trace),
        log: Trace,
    ) -> (ParseOutcomeView, Trace) {
        next(log)
    }

    /// What the execute hook does. Unless an extension says otherwise, it
    /// passes through.
    open spec fn execute_model(
        &self,
        operation_name: Option<Seq<char>>,
        next: spec_fn(Trace) -> (ExecutionResultView, Trace),
        log: Trace,
    ) -> (ExecutionResultView, Trace) {
        next(log)
    }

    /// What the resolve hook does. Unless an extension says otherwise, it
    /// passes through.
    open spec fn resolve_model(
        &self,
        info: ResolveInfoView,
        next: spec_fn(Trace) -> (ResolveOutcomeView, Trace),
        log: Trace,
    ) -> (ResolveOutcomeView, Trace) {
        next(log)
    }

    /// Wraps the step from query text to parsed document.
    fn parse_query<N: NextParseQuery>(
        &self,
        query: &str,
        variables: &async_graphql::Variables,
        next: N,
        log: &mut Vec<String>,
    ) -> (outcome: ParseOutcome)
        ensures
            (parse_outcome_view(outcome), final(log).deep_view()) == self.parse_query_model(
                query@,
                *variables,
                next.model(),
                old(log).deep_view(),
            ),
    ;

    /// Wraps the execution of one operation. Execution never fails: its errors
    /// are inside the result.
    fn execute<N: NextExecute>(&self, operation_name: Option<&str>, next: N, log: &mut Vec<String>) -> (result:
        ExecutionResult)
        ensures
            (result.deep_view(), final(log).deep_view()) == self.execute_model(
                operation_name.deep_view(),
                next.model(),
                old(log).deep_view(),
            ),
    ;

    /// Wraps the resolution of one field.
    fn resolve<N: NextResolve>(&self, info: &ResolveInfo, next: N, log: &mut Vec<String>) -> (outcome:
        ResolveOutcome)
        ensures
            (resolve_outcome_view(outcome), final(log).deep_view()) == self.resolve_model(
                info.deep_view(),
                next.model(),
                old(log).deep_view(),
            ),
    ;
}

/// `next` as a parse hook of the extension before `extension` sees it: the
/// hook of `extension`, applied to what lies further in.
pub struct ParseLayer<'a, E, N> {
    pub extension: &'a E,
    pub query: &'a str,
    pub variables: &'a async_graphql::Variables,
    pub next: N,
}

/// `next` as an execute hook of the extension before `extension` sees it.
pub struct ExecuteLayer<'a, E, N> {
    pub extension: &'a E,
    pub operation_name: Option<&'a str>,
    pub next: N,
}

/// `next` as a resolve hook of the extension before `extension` sees it.
pub struct ResolveLayer<'a, E, N> {
    pub extension: &'a E,
    pub info: &'a ResolveInfo,
    pub next: N,
}

impl<'a, E: Extension, N: NextParseQuery> NextParseQuery for ParseLayer<'a, E, N> {
    open spec fn model(&self) -> spec_fn(Trace) -> (ParseOutcomeView, Trace) {
        |log: Trace| self.extension.parse_query_model(self.query@, *self.variables, self.next.model(), log)
    }

    fn run(self, log: &mut Vec<String>) -> (outcome: ParseOutcome) {
        self.extension.parse_query(self.query, self.variables, self.next, log)
    }
}

impl<'a, E: Extension, N: NextExecute> NextExecute for ExecuteLayer<'a, E, N> {
    open spec fn model(&self) -> spec_fn(Trace) -> (ExecutionResultView, Trace) {
        |log: Trace| self.extension.execute_model(self.operation_name.deep_view(), self.next.model(), log)
    }

    fn run(self, log: &mut Vec<String>) -> (result: ExecutionResult) {
        self.extension.execute(self.operation_name, self.next, log)
    }
}

impl<'a, E: Extension, N: NextResolve> NextResolve for ResolveLayer<'a, E, N> {
    open spec fn model(&self) -> spec_fn(Trace) -> (ResolveOutcomeView, Trace) {
        |log: Trace| self.extension.resolve_model(self.info.deep_view(), self.next.model(), log)
    }

    fn run(self, log: &mut Vec<String>) -> (outcome: ResolveOutcome) {
        self.extension.resolve(self.info, self.next, log)
    }
}

/// Whether the parse hook of `extension` only runs `next`.
pub open spec fn passes_parse_query<E: Extension>(extension: &E) -> bool {
    forall|
        query: Seq<char>,
        variables: async_graphql::Variables,
        next: spec_fn(Trace) -> (ParseOutcomeView, Trace),
        log: Trace,
    |
        #[trigger] extension.parse_query_model(query, variables, next, log) == next(log)
}

/// Whether the execute hook of `extension` only runs `next`.
pub open spec fn passes_execute<E: Extension>(extension: &E) -> bool {
    forall|name: Option<Seq<char>>, next: spec_fn(Trace) -> (ExecutionResultView, Trace), log: Trace|
        #[trigger] extension.execute_model(name, next, log) == next(log)
}

/// Whether the resolve hook of `extension` only runs `next`.
pub open spec fn passes_resolve<E: Extension>(extension: &E) -> bool {
    forall|info: ResolveInfoView, next: spec_fn(Trace) -> (ResolveOutcomeView, Trace), log: Trace|
        #[trigger] extension.resolve_model(info, next, log) == next(log)
}

/// Whether the parse hook of `extension`, on this query, logs `before`, runs
/// `next`, logs `after` and returns what `next` returned.
pub open spec fn logs_around_parse_query<E: Extension>(
    extension: &E,
    query: Seq<char>,
    before: Seq<char>,
    after: Seq<char>,
) -> bool {
    forall|variables: async_graphql::Variables, next: spec_fn(Trace) -> (ParseOutcomeView, Trace), log: Trace|
        #[trigger] extension.parse_query_model(query, variables, next, log) == (
            next(log.push(before)).0,
            next(log.push(before)).1.push(after),
        )
}

/// Whether the execute hook of `extension`, for this operation name, logs
/// `before`, runs `next`, logs `after` and returns what `next` returned.
pub open spec fn logs_around_execute<E: Extension>(
    extension: &E,
    name: Option<Seq<char>>,
    before: Seq<char>,
    after: Seq<char>,
) -> bool {
    forall|next: spec_fn(Trace) -> (ExecutionResultView, Trace), log: Trace|
        #[trigger] extension.execute_model(name, next, log) == (
            next(log.push(before)).0,
            next(log.push(before)).1.push(after),
        )
}

/// Whether the resolve hook of `extension`, for this field, logs `before`, runs
/// `next`, logs `after` and returns what `next` returned.
pub open spec fn logs_around_resolve<E: Extension>(
    extension: &E,
    info: ResolveInfoView,
    before: Seq<char>,
    after: Seq<char>,
) -> bool {
    forall|next: spec_fn(Trace) -> (ResolveOutcomeView, Trace), log: Trace|
        #[trigger] extension.resolve_model(info, next, log) == (
            next(log.push(before)).0,
            next(log.push(before)).1.push(after),
        )
}

/// An ordered chain of extensions. An extension registered earlier wraps those
/// registered later: what its hook does before `next` runs before theirs, what
/// it does after `next` runs after theirs.
pub trait ExtensionChain {
    /// The number of extensions in the chain.
    spec fn count(&self) -> nat;

    spec fn parse_query_model(
        &self,
        query: Seq<char>,
        variables: async_graphql::Variables,
        next: spec_fn(Trace) -> (ParseOutcomeView, Trace),
        log: Trace,
    ) -> (ParseOutcomeView, Trace);

    spec fn execute_model(
        &self,
        operation_name: Option<Seq<char>>,
        next: spec_fn(Trace) -> (ExecutionResultView, Trace),
        log: Trace,
    ) -> (ExecutionResultView, Trace);

    spec fn resolve_model(
        &self,
        info: ResolveInfoView,
        next: spec_fn(Trace) -> (ResolveOutcomeView, Trace),
        log: Trace,
    ) -> (ResolveOutcomeView, Trace);

    /// Whether the parse hook of every extension only runs `next`.
    spec fn all_pass_parse_query(&self) -> bool;

    /// Whether the execute hook of every extension only runs `next`.
    spec fn all_pass_execute(&self) -> bool;

    /// Whether the resolve hook of every extension only runs `next`.
    spec fn all_pass_resolve(&self) -> bool;

    /// Whether every hook of every extension only runs `next`.
    spec fn passes_through(&self) -> bool;

    /// Whether the parse hook of the extension registered at each position `i`
    /// logs `befores[i]`, runs `next` and logs `afters[i]`.
    spec fn logs_around_parse_query(&self, query: Seq<char>, befores: Trace, afters: Trace) -> bool;

    spec fn logs_around_execute(&self, name: Option<Seq<char>>, befores: Trace, afters: Trace) -> bool;

    spec fn logs_around_resolve(&self, info: ResolveInfoView, befores: Trace, afters: Trace) -> bool;

    /// Runs the parse hooks around `next`, the first registered outermost.
    fn parse_query<N: NextParseQuery>(
        &self,
        query: &str,
        variables: &async_graphql::Variables,
        next: N,
        log: &mut Vec<String>,
    ) -> (outcome: ParseOutcome)
        ensures
            (parse_outcome_view(outcome), final(log).deep_view()) == self.parse_query_model(
                query@,
                *variables,
                next.model(),
                old(log).deep_view(),
            ),
    ;

    /// Runs the execute hooks around `next`, the first registered outermost.
    fn execute<N: NextExecute>(&self, operation_name: Option<&str>, next: N, log: &mut Vec<String>) -> (result:
        ExecutionResult)
        ensures
            (result.deep_view(), final(log).deep_view()) == self.execute_model(
                operation_name.deep_view(),
                next.model(),
                old(log).deep_view(),
            ),
    ;

    /// Runs the resolve hooks around `next`, the first registered outermost.
    fn resolve<N: NextResolve>(&self, info: &ResolveInfo, next: N, log: &mut Vec<String>) -> (outcome:
        ResolveOutcome)
        ensures
            (resolve_outcome_view(outcome), final(log).deep_view()) == self.resolve_model(
                info.deep_view(),
                next.model(),
                old(log).deep_view(),
            ),
    ;

    /// Identity: a chain whose parse hooks all pass through, in whatever order
    /// its extensions are registered and whatever their other hooks do, parses
    /// exactly as `next` alone does.
    proof fn lemma_identity_parse_query(
        &self,
        query: Seq<char>,
        variables: async_graphql::Variables,
        next: spec_fn(Trace) -> (ParseOutcomeView, Trace),
        log: Trace,
    )
        requires
            self.all_pass_parse_query(),
        ensures
            self.parse_query_model(query, variables, next, log) == next(log),
    ;

    /// Identity: a chain whose execute hooks all pass through, in whatever
    /// order its extensions are registered and whatever their other hooks do,
    /// executes exactly as `next` alone does.
    proof fn lemma_identity_execute(
        &self,
        name: Option<Seq<char>>,
        next: spec_fn(Trace) -> (ExecutionResultView, Trace),
        log: Trace,
    )
        requires
            self.all_pass_execute(),
        ensures
            self.execute_model(name, next, log) == next(log),
    ;

    /// Identity: a chain whose resolve hooks all pass through, in whatever
    /// order its extensions are registered and whatever their other hooks do,
    /// resolves exactly as `next` alone does.
    proof fn lemma_identity_resolve(
        &self,
        info: ResolveInfoView,
        next: spec_fn(Trace) -> (ResolveOutcomeView, Trace),
        log: Trace,
    )
        requires
            self.all_pass_resolve(),
        ensures
            self.resolve_model(info, next, log) == next(log),
    ;

    /// A chain whose extensions pass through in every hook passes through in
    /// each hook.
    proof fn lemma_passes_through(&self)
        requires
            self.passes_through(),
        ensures
            self.all_pass_parse_query(),
            self.all_pass_execute(),
            self.all_pass_resolve(),
    ;

    /// Onion order: where each parse hook logs a line, runs `next` and logs a
    /// line, the lines before `next` appear in registration order, then what
    /// `next` logs, then the lines after `next` in reverse registration order.
    proof fn lemma_onion_parse_query(
        &self,
        query: Seq<char>,
        variables: async_graphql::Variables,
        befores: Trace,
        afters: Trace,
        next: spec_fn(Trace) -> (ParseOutcomeView, Trace),
        log: Trace,
    )
        requires
            self.logs_around_parse_query(query, befores, afters),
        ensures
            befores.len() == self.count(),
            afters.len() == self.count(),
            self.parse_query_model(query, variables, next, log) == (
                next(log + befores).0,
                next(log + befores).1 + afters.reverse(),
            ),
    ;

    /// Onion order of the execute hooks.
    proof fn lemma_onion_execute(
        &self,
        name: Option<Seq<char>>,
        befores: Trace,
        afters: Trace,
        next: spec_fn(Trace) -> (ExecutionResultView, Trace),
        log: Trace,
    )
        requires
            self.logs_around_execute(name, befores, afters),
        ensures
            befores.len() == self.count(),
            afters.len() == self.count(),
            self.execute_model(name, next, log) == (
                next(log + befores).0,
                next(log + befores).1 + afters.reverse(),
            ),
    ;

    /// Onion order of the resolve hooks.
    proof fn lemma_onion_resolve(
        &self,
        info: ResolveInfoView,
        befores: Trace,
        afters: Trace,
        next: spec_fn(Trace) -> (ResolveOutcomeView, Trace),
        log: Trace,
    )
        requires
            self.logs_around_resolve(info, befores, afters),
        ensures
            befores.len() == self.count(),
            afters.len() == self.count(),
            self.resolve_model(info, next, log) == (
                next(log + befores).0,
                next(log + befores).1 + afters.reverse(),
            ),
    ;
}

/// The chain without extensions: every phase is the phase itself.
pub struct NoExtensions;

/// The chain `outer` with `inner` registered after it, so that every extension
/// of `outer` wraps `inner`.
pub struct Layered<C, E> {
    pub outer: C,
    pub inner: E,
}

impl NoExtensions {
    /// The chain to which nothing has been registered yet.
    pub fn new() -> (chain: NoExtensions)
        ensures
            chain.count() == 0,
            chain.passes_through(),
    {
        NoExtensions
    }

    /// Registers the first extension.
    pub fn with<E: Extension>(self, extension: E) -> (chain: Layered<NoExtensions, E>)
        ensures
            chain.outer == self,
            chain.inner == extension,
    {
        Layered { outer: self, inner: extension }
    }
}

impl<C: ExtensionChain, E: Extension> Layered<C, E> {
    /// Registers one more extension, innermost.
    pub fn with<F: Extension>(self, extension: F) -> (chain: Layered<Layered<C, E>, F>)
        ensures
            chain.outer == self,
            chain.inner == extension,
    {
        Layered { outer: self, inner: extension }
    }
}

impl ExtensionChain for NoExtensions {
    open spec fn count(&self) -> nat {
        0
    }

    open spec fn parse_query_model(
        &self,
        query: Seq<char>,
        variables: async_graphql::Variables,
        next: spec_fn(Trace) -> (ParseOutcomeView, Trace),
        log: Trace,
    ) -> (ParseOutcomeView, Trace) {
        next(log)
    }

    open spec fn execute_model(
        &self,
        operation_name: Option<Seq<char>>,
        next: spec_fn(Trace) -> (ExecutionResultView, Trace),
        log: Trace,
    ) -> (ExecutionResultView, Trace) {
        next(log)
    }

    open spec fn resolve_model(
        &self,
        info: ResolveInfoView,
        next: spec_fn(Trace) -> (ResolveOutcomeView, Trace),
        log: Trace,
    ) -> (ResolveOutcomeView, Trace) {
        next(log)
    }

    open spec fn all_pass_parse_query(&self) -> bool {
        true
    }

    open spec fn all_pass_execute(&self) -> bool {
        true
    }

    open spec fn all_pass_resolve(&self) -> bool {
        true
    }

    open spec fn passes_through(&self) -> bool {
        true
    }

    open spec fn logs_around_parse_query(&self, query: Seq<char>, befores: Trace, afters: Trace) -> bool {
        befores.len() == 0 && afters.len() == 0
    }

    open spec fn logs_around_execute(&self, name: Option<Seq<char>>, befores: Trace, afters: Trace) -> bool {
        befores.len() == 0 && afters.len() == 0
    }

    open spec fn logs_around_resolve(&self, info: ResolveInfoView, befores: Trace, afters: Trace) -> bool {
        befores.len() == 0 && afters.len() == 0
    }

    fn parse_query<N: NextParseQuery>(
        &self,
        query: &str,
        variables: &async_graphql::Variables,
        next: N,
        log: &mut Vec<String>,
    ) -> (outcome: ParseOutcome) {
        next.run(log)
    }

    fn execute<N: NextExecute>(&self, operation_name: Option<&str>, next: N, log: &mut Vec<String>) -> (result:
        ExecutionResult) {
        next.run(log)
    }

    fn resolve<N: NextResolve>(&self, info: &ResolveInfo, next: N, log: &mut Vec<String>) -> (outcome:
        ResolveOutcome) {
        next.run(log)
    }

    proof fn lemma_identity_parse_query(
        &self,
        query: Seq<char>,
        variables: async_graphql::Variables,
        next: spec_fn(Trace) -> (ParseOutcomeView, Trace),
        log: Trace,
    ) {
    }

    proof fn lemma_identity_execute(
        &self,
        name: Option<Seq<char>>,
        next: spec_fn(Trace) -> (ExecutionResultView, Trace),
        log: Trace,
    ) {
    }

    proof fn lemma_identity_resolve(
        &self,
        info: ResolveInfoView,
        next: spec_fn(Trace) -> (ResolveOutcomeView, Trace),
        log: Trace,
    ) {
    }

    proof fn lemma_passes_through(&self) {
    }

    proof fn lemma_onion_parse_query(
        &self,
        query: Seq<char>,
        variables: async_graphql::Variables,
        befores: Trace,
        afters: Trace,
        next: spec_fn(Trace) -> (ParseOutcomeView, Trace),
        log: Trace,
    ) {
        assert(log + befores =~= log);
        assert(next(log).1 + afters.reverse() =~= next(log).1);
    }

    proof fn lemma_onion_execute(
        &self,
        name: Option<Seq<char>>,
        befores: Trace,
        afters: Trace,
        next: spec_fn(Trace) -> (ExecutionResultView, Trace),
        log: Trace,
    ) {
        assert(log + befores =~= log);
        assert(next(log).1 + afters.reverse() =~= next(log).1);
    }

    proof fn lemma_onion_resolve(
        &self,
        info: ResolveInfoView,
        befores: Trace,
        afters: Trace,
        next: spec_fn(Trace) -> (ResolveOutcomeView, Trace),
        log: Trace,
    ) {
        assert(log + befores =~= log);
        assert(next(log).1 + afters.reverse() =~= next(log).1);
    }
}

/// Logging `befores` and then one more line is logging the longer list.
proof fn lemma_trace_push(log: Trace, lines: Trace)
    requires
        lines.len() >= 1,
    ensures
        (log + lines.drop_last()).push(lines.last()) == log + lines,
{
    assert((log + lines.drop_last()).push(lines.last()) =~= log + lines);
}

/// The last line comes first in the reversed list.
proof fn lemma_trace_unwind(log: Trace, lines: Trace)
    requires
        lines.len() >= 1,
    ensures
        log.push(lines.last()) + lines.drop_last().reverse() == log + lines.reverse(),
{
    assert(log.push(lines.last()) + lines.drop_last().reverse() =~= log + lines.reverse());
}

impl<C: ExtensionChain, E: Extension> ExtensionChain for Layered<C, E> {
    open spec fn count(&self) -> nat {
        self.outer.count() + 1
    }

    open spec fn parse_query_model(
        &self,
        query: Seq<char>,
        variables: async_graphql::Variables,
        next: spec_fn(Trace) -> (ParseOutcomeView, Trace),
        log: Trace,
    ) -> (ParseOutcomeView, Trace) {
        self.outer.parse_query_model(
            query,
            variables,
            |inner_log: Trace| self.inner.parse_query_model(query, variables, next, inner_log),
            log,
        )
    }

    open spec fn execute_model(
        &self,
        operation_name: Option<Seq<char>>,
        next: spec_fn(Trace) -> (ExecutionResultView, Trace),
        log: Trace,
    ) -> (ExecutionResultView, Trace) {
        self.outer.execute_model(
            operation_name,
            |inner_log: Trace| self.inner.execute_model(operation_name, next, inner_log),
            log,
        )
    }

    open spec fn resolve_model(
        &self,
        info: ResolveInfoView,
        next: spec_fn(Trace) -> (ResolveOutcomeView, Trace),
        log: Trace,
    ) -> (ResolveOutcomeView, Trace) {
        self.outer.resolve_model(info, |inner_log: Trace| self.inner.resolve_model(info, next, inner_log), log)
    }

    open spec fn all_pass_parse_query(&self) -> bool {
        self.outer.all_pass_parse_query() && passes_parse_query(&self.inner)
    }

    open spec fn all_pass_execute(&self) -> bool {
        self.outer.all_pass_execute() && passes_execute(&self.inner)
    }

    open spec fn all_pass_resolve(&self) -> bool {
        self.outer.all_pass_resolve() && passes_resolve(&self.inner)
    }

    open spec fn passes_through(&self) -> bool {
        &&& self.outer.passes_through()
        &&& passes_parse_query(&self.inner)
        &&& passes_execute(&self.inner)
        &&& passes_resolve(&self.inner)
    }

    open spec fn logs_around_parse_query(&self, query: Seq<char>, befores: Trace, afters: Trace) -> bool {
        &&& befores.len() >= 1
        &&& afters.len() >= 1
        &&& self.outer.logs_around_parse_query(query, befores.drop_last(), afters.drop_last())
        &&& logs_around_parse_query(&self.inner, query, befores.last(), afters.last())
    }

    open spec fn logs_around_execute(&self, name: Option<Seq<char>>, befores: Trace, afters: Trace) -> bool {
        &&& befores.len() >= 1
        &&& afters.len() >= 1
        &&& self.outer.logs_around_execute(name, befores.drop_last(), afters.drop_last())
        &&& logs_around_execute(&self.inner, name, befores.last(), afters.last())
    }

    open spec fn logs_around_resolve(&self, info: ResolveInfoView, befores: Trace, afters: Trace) -> bool {
        &&& befores.len() >= 1
        &&& afters.len() >= 1
        &&& self.outer.logs_around_resolve(info, befores.drop_last(), afters.drop_last())
        &&& logs_around_resolve(&self.inner, info, befores.last(), afters.last())
    }

    fn parse_query<N: NextParseQuery>(
        &self,
        query: &str,
        variables: &async_graphql::Variables,
        next: N,
        log: &mut Vec<String>,
    ) -> (outcome: ParseOutcome) {
        let layer = ParseLayer { extension: &self.inner, query, variables, next };
        self.outer.parse_query(query, variables, layer, log)
    }

    fn execute<N: NextExecute>(&self, operation_name: Option<&str>, next: N, log: &mut Vec<String>) -> (result:
        ExecutionResult) {
        let layer = ExecuteLayer { extension: &self.inner, operation_name, next };
        self.outer.execute(operation_name, layer, log)
    }

    fn resolve<N: NextResolve>(&self, info: &ResolveInfo, next: N, log: &mut Vec<String>) -> (outcome:
        ResolveOutcome) {
        let layer = ResolveLayer { extension: &self.inner, info, next };
        self.outer.resolve(info, layer, log)
    }

    proof fn lemma_identity_parse_query(
        &self,
        query: Seq<char>,
        variables: async_graphql::Variables,
        next: spec_fn(Trace) -> (ParseOutcomeView, Trace),
        log: Trace,
    ) {
        let inner = |inner_log: Trace| self.inner.parse_query_model(query, variables, next, inner_log);
        self.outer.lemma_identity_parse_query(query, variables, inner, log);
    }

    proof fn lemma_identity_execute(
        &self,
        name: Option<Seq<char>>,
        next: spec_fn(Trace) -> (ExecutionResultView, Trace),
        log: Trace,
    ) {
        let inner = |inner_log: Trace| self.inner.execute_model(name, next, inner_log);
        self.outer.lemma_identity_execute(name, inner, log);
    }

    proof fn lemma_identity_resolve(
        &self,
        info: ResolveInfoView,
        next: spec_fn(Trace) -> (ResolveOutcomeView, Trace),
        log: Trace,
    ) {
        let inner = |inner_log: Trace| self.inner.resolve_model(info, next, inner_log);
        self.outer.lemma_identity_resolve(info, inner, log);
    }

    proof fn lemma_passes_through(&self) {
        self.outer.lemma_passes_through();
    }

    proof fn lemma_onion_parse_query(
        &self,
        query: Seq<char>,
        variables: async_graphql::Variables,
        befores: Trace,
        afters: Trace,
        next: spec_fn(Trace) -> (ParseOutcomeView, Trace),
        log: Trace,
    ) {
        let inner = |inner_log: Trace| self.inner.parse_query_model(query, variables, next, inner_log);
        self.outer.lemma_onion_parse_query(query, variables, befores.drop_last(), afters.drop_last(), inner, log);
        lemma_trace_push(log, befores);
        lemma_trace_unwind(next(log + befores).1, afters);
    }

    proof fn lemma_onion_execute(
        &self,
        name: Option<Seq<char>>,
        befores: Trace,
        afters: Trace,
        next: spec_fn(Trace) -> (ExecutionResultView, Trace),
        log: Trace,
    ) {
        let inner = |inner_log: Trace| self.inner.execute_model(name, next, inner_log);
        self.outer.lemma_onion_execute(name, befores.drop_last(), afters.drop_last(), inner, log);
        lemma_trace_push(log, befores);
        lemma_trace_unwind(next(log + befores).1, afters);
    }

    proof fn lemma_onion_resolve(
        &self,
        info: ResolveInfoView,
        befores: Trace,
        afters: Trace,
        next: spec_fn(Trace) -> (ResolveOutcomeView, Trace),
        log: Trace,
    ) {
        let inner = |inner_log: Trace| self.inner.resolve_model(info, next, inner_log);
        self.outer.lemma_onion_resolve(info, befores.drop_last(), afters.drop_last(), inner, log);
        lemma_trace_push(log, befores);
        lemma_trace_unwind(next(log + befores).1, afters);
    }
}

} // verus!
