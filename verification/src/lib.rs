//! A GraphQL request-execution gateway.
//!
//! The gateway takes HTTP requests that carry GraphQL operations, executes the
//! operations against a schema, and lets logging and tracing be composed around
//! the execution without touching schema or resolvers.
//!
//! * [`chain`] holds the extension pipeline: extensions that wrap query
//!   parsing, execution and field resolution, composed into chains in which an
//!   extension registered earlier wraps those registered later.
//! * [`extension`] holds the extensions that are shipped: the logger that skips
//!   introspection queries and reports errors with their paths, a tracer, and
//!   the extension that does nothing.
//! * [`invoker`] executes operations and batches through a chain: one result
//!   for each operation, in input order, each on its own.
//! * [`transport`] routes requests, classifies content types, decodes bodies
//!   and builds responses; [`json`] writes results in their wire form.
//! * [`document`], [`request`], [`response`], [`error`], [`path`] and
//!   [`schema`] hold the data that these work on.
//!
//! Execution here is synchronous and flat: a schema resolves each top-level
//! field of an operation to its whole value. A process that runs an engine of
//! its own takes [`transport::plan_request`] and the response builders for the
//! transport, and the decisions of [`extension::CustomExtension`] for its
//! hooks.

pub mod chain;
pub mod document;
pub mod error;
pub mod extension;
pub mod invoker;
pub mod json;
pub mod path;
pub mod request;
pub mod response;
pub mod schema;
pub mod text;
pub mod transport;
