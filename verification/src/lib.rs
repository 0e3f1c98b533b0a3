//! A small generic CRUD layer over a relational store: untrusted table and
//! column names are validated against a strict allow-list, filter and sort
//! parameters are turned into parameterized SQL, and storage rows are
//! marshalled into a JSON-like value model.

pub mod client;
pub mod codec;
pub mod handler;
pub mod ident;
pub mod query;
pub mod registry;
pub mod text;
pub mod value;
