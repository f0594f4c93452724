//! Client-side core of a Docker Registry V2 command-line tool: credential
//! resolution, request URL construction, and interpretation of registry
//! responses, kept apart from the transport that carries the requests.

pub mod auth;
pub mod conf;
pub mod errors;
pub mod http_client;
pub mod json;
pub mod registry_client;
pub mod status;
