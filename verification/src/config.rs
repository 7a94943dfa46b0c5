//! Gateway configuration and the client-facing error document.

use vstd::prelude::*;

verus! {

/// Immutable process-wide settings. Built once at startup from the
/// environment / command line by the surrounding server and read-only for
/// the rest of the process lifetime.
#[derive(Debug, Clone)]
pub struct Config {
    /// Host to bind the server to.
    pub host: String,
    /// Port to bind the server to.
    pub port: u16,
    /// Backend URL the gateway relays every request to.
    pub backend_url: String,
    /// Default API key, used when a request carries no `Authorization`
    /// header; absent means clients must authenticate themselves.
    pub default_api_key: Option<String>,
    /// Enable debug logging.
    pub debug: bool,
    /// Enable CORS for all origins.
    pub enable_cors: bool,
}

/// The wire error document returned to callers on any failure:
/// `{ "error": { "message": ..., "type": ..., "param": ..., "code": ... } }`.
#[derive(Debug, Clone)]
pub struct OpenAIError {
    pub error: OpenAIErrorDetails,
}

/// The fields inside the wire error document.
#[derive(Debug, Clone)]
pub struct OpenAIErrorDetails {
    pub message: String,
    pub error_type: String,
    pub param: Option<String>,
    pub code: Option<String>,
}

/// The error document with message `msg`, kind tag `ty`, and no parameter
/// name or machine code.
pub open spec fn is_error_doc(e: OpenAIError, msg: Seq<char>, ty: Seq<char>) -> bool {
    &&& e.error.message@ == msg
    &&& e.error.error_type@ == ty
    &&& e.error.param is None
    &&& e.error.code is None
}

impl OpenAIError {
    /// A fresh error document with the given message and kind tag.
    pub fn new(message: String, error_type: String) -> (r: Self)
        ensures
            is_error_doc(r, message@, error_type@),
    {
        Self {
            error: OpenAIErrorDetails {
                message,
                error_type,
                param: None,
                code: None,
            },
        }
    }

    /// An error document tagged `invalid_request_error`, used for every
    /// missing or malformed credential.
    pub fn authentication_error(message: String) -> (r: Self)
        ensures
            is_error_doc(r, message@, "invalid_request_error"@),
    {
        Self::new(message, "invalid_request_error".to_owned())
    }

    /// An error document tagged `server_error`, used for secure-channel and
    /// backend failures.
    pub fn server_error(message: String) -> (r: Self)
        ensures
            is_error_doc(r, message@, "server_error"@),
    {
        Self::new(message, "server_error".to_owned())
    }
}

} // verus!
