//! A dynamic database gateway: a metadata catalog of uploaded database files
//! with pooled access, plus a generic query and introspection engine that opens
//! an arbitrary relational schema at runtime, runs caller-supplied SQL against
//! it, and converts typed result rows into generic structured values.

pub mod catalog;
pub mod connection;
pub mod database_metadata;
pub mod gateway;
pub mod introspect;
pub mod logger;
pub mod query;
pub mod upload;
pub mod sqlite;
pub mod timestamp;
pub mod values;
