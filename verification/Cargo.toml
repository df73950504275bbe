[package]
name = "graphql_gateway"
version = "0.1.0"
edition = "2021"
publish = false

[dependencies]
async-graphql = { version = "5.0", features = ["opentelemetry"] }
async-graphql-poem = "5.0"
async-graphql-value = "5.0"
hyper = { version = "0.14", features = ["full"] }
opentelemetry = "0.19"
poem = "1.3"
serde_json = "1.0"
tokio = { version = "1", features = ["macros", "rt-multi-thread"] }
