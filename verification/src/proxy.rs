//! Per-request decision logic: credential resolution, the authentication
//! gate every operation passes first, streaming-versus-buffered dispatch for
//! chat completions, and the health document.

use vstd::prelude::*;
use vstd::string::StrSliceExecFns;
use crate::config::{Config, OpenAIError, is_error_doc};
use crate::errors::{AuthError, ProxyFailure, failure_message, failure_status, normalize_failure};

verus! {

/// Shared, read-only state handed to every request handler.
#[derive(Debug, Clone)]
pub struct ProxyState {
    pub config: Config,
}

impl ProxyState {
    pub fn new(config: Config) -> (r: Self)
        ensures
            r.config == config,
    {
        Self { config }
    }
}

/// The `Authorization` header of a request, as the server hands it to the
/// resolver: either its bytes read as text, or `Binary` when they do not.
#[derive(Debug, Clone)]
pub enum AuthHeaderValue {
    Text(String),
    Binary,
}

/// Whether `s` begins with the literal `Bearer ` scheme prefix.
pub open spec fn bearer_prefixed(s: Seq<char>) -> bool {
    s.len() >= 7 && s.subrange(0, 7) == "Bearer "@
}

/// The token after the `Bearer ` prefix.
pub open spec fn bearer_token(s: Seq<char>) -> Seq<char> {
    s.subrange(7, s.len() as int)
}

/// The credential owed to a request: the bearer token when an
/// `Authorization` header is present and well-formed, the configured
/// default when no header is present, and an error otherwise. A present
/// header never falls back to the default.
pub open spec fn resolved_credential(header: Option<AuthHeaderValue>, default_key: Option<
    String,
>) -> Result<Seq<char>, AuthError> {
    match header {
        Some(AuthHeaderValue::Text(s)) => if bearer_prefixed(s@) {
            Ok(bearer_token(s@))
        } else {
            Err(AuthError::Malformed)
        },
        Some(AuthHeaderValue::Binary) => Err(AuthError::Malformed),
        None => match default_key {
            Some(k) => Ok(k@),
            None => Err(AuthError::Missing),
        },
    }
}

/// Whether the string begins with `Bearer `.
fn has_bearer_prefix(s: &String) -> (b: bool)
    ensures
        b == bearer_prefixed(s@),
{
    let st: &str = s.as_str();
    let n: usize = st.unicode_len();
    if n < 7 {
        return false;
    }
    let b = st.get_char(0) == 'B' && st.get_char(1) == 'e' && st.get_char(2) == 'a' && st.get_char(
        3,
    ) == 'r' && st.get_char(4) == 'e' && st.get_char(5) == 'r' && st.get_char(6) == ' ';
    proof {
        reveal_strlit("Bearer ");
        if b {
            assert(s@.subrange(0, 7) =~= "Bearer "@);
        } else {
            if s@.subrange(0, 7) == "Bearer "@ {
                assert(s@[0] == "Bearer "@[0]);
                assert(s@[1] == "Bearer "@[1]);
                assert(s@[2] == "Bearer "@[2]);
                assert(s@[3] == "Bearer "@[3]);
                assert(s@[4] == "Bearer "@[4]);
                assert(s@[5] == "Bearer "@[5]);
                assert(s@[6] == "Bearer "@[6]);
            }
        }
    }
    b
}

/// The credential resolver: extracts the caller's backend API key from the
/// `Authorization` header, falling back to the configured default key only
/// when no header is present at all.
pub fn extract_api_key(header: &Option<AuthHeaderValue>, default_key: &Option<String>) -> (r:
    Result<String, AuthError>)
    ensures
        match resolved_credential(*header, *default_key) {
            Ok(k) => r matches Ok(s) && s@ == k,
            Err(e) => r == Err::<String, AuthError>(e),
        },
{
    match header {
        Some(AuthHeaderValue::Text(s)) => {
            if has_bearer_prefix(s) {
                let st: &str = s.as_str();
                let n: usize = st.unicode_len();
                let token: &str = st.substring_char(7, n);
                Ok(token.to_owned())
            } else {
                Err(AuthError::Malformed)
            }
        },
        Some(AuthHeaderValue::Binary) => Err(AuthError::Malformed),
        None => match default_key {
            Some(k) => Ok(k.clone()),
            None => Err(AuthError::Missing),
        },
    }
}

/// The authentication gate every operation passes before anything else:
/// resolve the credential, and on failure produce the normalized 401
/// response in place of any backend call.
pub fn authenticate(header: &Option<AuthHeaderValue>, default_key: &Option<String>) -> (r: Result<
    String,
    (u16, OpenAIError),
>)
    ensures
        match resolved_credential(*header, *default_key) {
            Ok(k) => r matches Ok(s) && s@ == k,
            Err(e) => r matches Err(p) && p.0 == 401 && is_error_doc(
                p.1,
                failure_message(ProxyFailure::Auth(e)),
                "invalid_request_error"@,
            ),
        },
{
    match extract_api_key(header, default_key) {
        Ok(k) => Ok(k),
        Err(e) => Err(normalize_failure(ProxyFailure::Auth(e))),
    }
}

/// How a chat-completion request is to be handled.
#[derive(Debug, Clone, Copy, PartialEq, Eq, Structural)]
pub enum ChatMode {
    /// Relay the backend's event stream as it arrives.
    Streaming,
    /// Await the single response document and return it whole.
    Buffered,
}

/// Chooses streaming or buffered handling from the request's `stream`
/// flag, and gives the flag value to forward: a request that did not ask
/// for streaming is forwarded with the flag explicitly `false`, never
/// absent, so the backend cannot default it ambiguously.
pub fn plan_chat(stream: Option<bool>) -> (r: (ChatMode, Option<bool>))
    ensures
        (r.0 is Streaming) <==> (stream == Some(true)),
        stream == Some(true) ==> r.1 == Some(true),
        stream != Some(true) ==> r.1 == Some(false),
{
    match stream {
        Some(true) => (ChatMode::Streaming, Some(true)),
        _ => (ChatMode::Buffered, Some(false)),
    }
}

/// The document served by the health endpoints.
#[derive(Debug, Clone)]
pub struct HealthDocument {
    pub status: String,
    pub service: String,
    pub version: String,
}

/// What every health response says, independent of any request state.
pub open spec fn is_health_document(h: HealthDocument) -> bool {
    &&& h.status@ == "ok"@
    &&& h.service@ == "maple-proxy"@
    &&& h.version@ == "0.1.0"@
}

/// The health document: a pure function of nothing, so every call — on
/// `/health` or `/` alike — reports the same status.
pub fn health_document() -> (h: HealthDocument)
    ensures
        is_health_document(h),
{
    HealthDocument {
        status: "ok".to_owned(),
        service: "maple-proxy".to_owned(),
        version: "0.1.0".to_owned(),
    }
}

/// Requests that carry neither an `Authorization` header nor find a
/// configured default credential are rejected with status 401 and the
/// `invalid_request_error` kind tag.
pub proof fn lemma_missing_credentials_rejected(
    header: Option<AuthHeaderValue>,
    default_key: Option<String>,
)
    requires
        header is None,
        default_key is None,
    ensures
        resolved_credential(header, default_key) == Err::<Seq<char>, AuthError>(AuthError::Missing),
        failure_status(ProxyFailure::Auth(AuthError::Missing)) == 401,
        crate::errors::failure_type(ProxyFailure::Auth(AuthError::Missing))
            == "invalid_request_error"@,
{
}

/// A well-formed `Authorization: Bearer <token>` header resolves to exactly
/// that token, whatever default credential is or is not configured.
pub proof fn lemma_bearer_overrides_default(
    s: String,
    default_a: Option<String>,
    default_b: Option<String>,
)
    requires
        bearer_prefixed(s@),
    ensures
        resolved_credential(Some(AuthHeaderValue::Text(s)), default_a) == Ok::<
            Seq<char>,
            AuthError,
        >(bearer_token(s@)),
        resolved_credential(Some(AuthHeaderValue::Text(s)), default_a) == resolved_credential(
            Some(AuthHeaderValue::Text(s)),
            default_b,
        ),
{
}

/// Health reporting is idempotent: any two health documents agree on every
/// field, so repeated calls are indistinguishable.
pub proof fn lemma_health_idempotent(h1: HealthDocument, h2: HealthDocument)
    requires
        is_health_document(h1),
        is_health_document(h2),
    ensures
        h1.status@ == h2.status@,
        h1.service@ == h2.service@,
        h1.version@ == h2.version@,
{
}

} // verus!
