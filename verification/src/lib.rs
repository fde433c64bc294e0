//! A small HTTP/1.1 engine: it reads a request from the bytes that were
//! received, routes it, and writes the bytes of the response.

pub mod client_handler;
pub mod gzip;
pub mod http_request;
pub mod http_response;
pub mod text;
