//! A typed client for a host-provided relational database: immutable prepared
//! statements, result envelopes and a codec between dynamic host values and
//! typed application values.
pub mod codec;
pub mod database;
pub mod error;
pub mod result;
pub mod statement;
pub mod value;
