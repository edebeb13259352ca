//! A read-only dashboard over a monitoring backend's REST API: request
//! routing, query validation, the upstream request plan, extraction of
//! monitored rows from the upstream JSON document, and their ordering.

pub mod order;
pub mod row;
pub mod json;
pub mod response;
pub mod query;
pub mod route;
pub mod table;
