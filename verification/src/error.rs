//! Errors of the tray application that its verified logic produces.
use crate::client::ApiError;
use vstd::prelude::*;

verus! {

/// Why the tray application could not go on.
#[derive(Debug)]
pub enum AppError {
    /// The configuration breaks a rule; the message names it.
    InvalidConfig(String),
    /// A call through the API client failed.
    ApiError(ApiError),
    /// A request of the compact client could not be sent or its body not read.
    Request { url: String, source: reqwest::Error },
    /// The server answered a request of the compact client with a status
    /// outside 200..=299.
    HttpStatus { url: String, status: u16, body: String },
    /// A body for the compact client is not the JSON that was expected.
    DecodeError { url: String, body: String, source: serde_json::Error },
    /// The HTTP client of the compact client could not be built.
    ClientBuild(reqwest::Error),
}

} // verus!
