//! A small HTTP/1.1 response encoder and the connection loop of a
//! single-threaded server, with every function verified.

pub mod connection;
pub mod decimal;
pub mod headers;
pub mod httpresponse;
pub mod status;
pub mod text;
