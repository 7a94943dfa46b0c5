//! Failure taxonomy and the error normalizer.
//!
//! Every failure that the per-request pipeline can produce is one variant
//! here, and [`normalize_failure`] maps each into exactly one
//! `(HTTP status, wire error document)` pair.

use vstd::prelude::*;
use crate::config::{OpenAIError, is_error_doc};

verus! {

/// A credential could not be resolved from the request.
#[derive(Debug, Clone, PartialEq, Eq, Structural)]
pub enum AuthError {
    /// No `Authorization` header and no configured default key.
    Missing,
    /// An `Authorization` header was present but not of the form
    /// `Bearer <token>` (wrong prefix, or bytes that are not text).
    Malformed,
}

/// The secure channel to the backend could not be established. The carried
/// cause is for the server's own log; the normalizer never surfaces the
/// attestation cause to the client.
#[derive(Debug, Clone)]
pub enum ConnectError {
    /// The client could not even be constructed (malformed address or key).
    Construction(String),
    /// The attestation handshake failed; the backend could not be verified.
    Attestation(String),
}

/// The backend operation a request was dispatched to.
#[derive(Debug, Clone, Copy, PartialEq, Eq, Structural)]
pub enum BackendOp {
    Models,
    ChatCompletion,
    ChatCompletionStream,
    Embeddings,
}

/// Any failure of the per-request pipeline: credential resolution,
/// secure-channel bootstrap, or the backend operation itself.
#[derive(Debug, Clone)]
pub enum ProxyFailure {
    Auth(AuthError),
    Connect(ConnectError),
    Backend(BackendOp, String),
}

/// The HTTP status owed to a failure: 401 for credential problems, 500 for
/// everything past authentication.
pub open spec fn failure_status(f: ProxyFailure) -> u16 {
    match f {
        ProxyFailure::Auth(_) => 401u16,
        ProxyFailure::Connect(_) => 500u16,
        ProxyFailure::Backend(_, _) => 500u16,
    }
}

/// The kind tag owed to a failure.
pub open spec fn failure_type(f: ProxyFailure) -> Seq<char> {
    match f {
        ProxyFailure::Auth(_) => "invalid_request_error"@,
        ProxyFailure::Connect(_) => "server_error"@,
        ProxyFailure::Backend(_, _) => "server_error"@,
    }
}

/// The message prefix for a failed backend operation; the summarized cause
/// is appended to it.
pub open spec fn backend_prefix(op: BackendOp) -> Seq<char> {
    match op {
        BackendOp::Models => "Failed to retrieve models: "@,
        BackendOp::ChatCompletion => "Failed to create completion: "@,
        BackendOp::ChatCompletionStream => "Failed to create streaming completion: "@,
        BackendOp::Embeddings => "Failed to create embeddings: "@,
    }
}

/// The message owed to a failure. Credential failures carry a fixed
/// instruction; a construction failure echoes its cause; an attestation
/// failure is reported generically, its cause deliberately withheld; a
/// backend failure names the operation and appends the summarized cause.
pub open spec fn failure_message(f: ProxyFailure) -> Seq<char> {
    match f {
        ProxyFailure::Auth(AuthError::Missing) => "No API key provided. Set MAPLE_API_KEY environment variable or provide Authorization header"@,
        ProxyFailure::Auth(AuthError::Malformed) => "Invalid Authorization header format"@,
        ProxyFailure::Connect(ConnectError::Construction(cause)) => "Failed to create client: "@ + cause@,
        ProxyFailure::Connect(ConnectError::Attestation(_)) => "Failed to establish secure connection with Maple backend"@,
        ProxyFailure::Backend(op, cause) => backend_prefix(op) + cause@,
    }
}

/// The error normalizer: maps every pipeline failure into exactly one
/// `(HTTP status, wire error document)` pair, as [`failure_status`],
/// [`failure_type`] and [`failure_message`] prescribe.
pub fn normalize_failure(f: ProxyFailure) -> (r: (u16, OpenAIError))
    ensures
        r.0 == failure_status(f),
        is_error_doc(r.1, failure_message(f), failure_type(f)),
{
    match f {
        ProxyFailure::Auth(AuthError::Missing) => (
            401,
            OpenAIError::authentication_error(
                "No API key provided. Set MAPLE_API_KEY environment variable or provide Authorization header".to_owned(),
            ),
        ),
        ProxyFailure::Auth(AuthError::Malformed) => (
            401,
            OpenAIError::authentication_error("Invalid Authorization header format".to_owned()),
        ),
        ProxyFailure::Connect(ConnectError::Construction(cause)) => (
            500,
            OpenAIError::server_error("Failed to create client: ".to_owned().concat(cause.as_str())),
        ),
        ProxyFailure::Connect(ConnectError::Attestation(_)) => (
            500,
            OpenAIError::server_error(
                "Failed to establish secure connection with Maple backend".to_owned(),
            ),
        ),
        ProxyFailure::Backend(op, cause) => {
            let prefix: &str = match op {
                BackendOp::Models => "Failed to retrieve models: ",
                BackendOp::ChatCompletion => "Failed to create completion: ",
                BackendOp::ChatCompletionStream => "Failed to create streaming completion: ",
                BackendOp::Embeddings => "Failed to create embeddings: ",
            };
            (500, OpenAIError::server_error(prefix.to_owned().concat(cause.as_str())))
        },
    }
}

} // verus!
