//! A local task and log manager: a typed document of projects, tasks and
//! log entries, the queries and mutations of its HTTP API, and the routing
//! of requests onto them.
pub mod handlers;
pub mod laws;
pub mod model;
pub mod outside;
pub mod query;
pub mod router;
pub mod text;
