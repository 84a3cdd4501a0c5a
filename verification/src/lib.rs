//! A typed, row-oriented scan over a remote spreadsheet-style table.
//!
//! The table arrives as a JSON envelope. The library builds the request
//! address, validates and unwraps the response, keeps the rows behind a
//! cursor, and turns each row into typed cells on demand.

pub mod cell;
pub mod config;
pub mod fetch;
pub mod json;
pub mod numeric;
pub mod row;
pub mod scan;
pub mod text;
pub mod timestamp;
