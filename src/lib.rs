//! Dynamic, injection-safe query construction over arbitrary tables, and
//! generic decoding of schema-unknown rows into JSON scalars.
pub mod error;
pub mod text;
pub mod ident;
pub mod filter;
pub mod sql;
pub mod row;
pub mod service;
