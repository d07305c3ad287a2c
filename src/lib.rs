//! Decoding of SQL wire values into dynamically typed values, row lookup,
//! server error classification and the connection lifecycle.
pub mod wire;
pub mod json;
pub mod decode;
pub mod errors;
pub mod row;
pub mod connection;
