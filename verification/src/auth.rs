//! Value types and decisions of the authentication relay that sits beside the
//! storage layer: it forwards SQL-connection credentials to an external
//! identity service over a callback bridge and maps the reply into a session
//! context. The bridge call itself is I/O and lives outside; what is here is
//! the shape of the request and the exact mapping of the reply.

use vstd::prelude::*;
use vstd::string::StringExecFns;

verus! {

/// The transport envelope of one relayed request.
pub struct TransportRequest {
    /// Identifier of this request's span.
    pub id: String,
    /// Optional request metadata, as serialized text; the relay sends none.
    pub meta: Option<String>,
}

/// One credential-check request handed to the bridge.
pub struct CheckSqlAuthRequest {
    pub request: TransportRequest,
    pub user: Option<String>,
    pub password: Option<String>,
}

/// What the identity service replies.
pub struct CheckSqlAuthResponse {
    pub password: Option<String>,
    pub superuser: bool,
    /// Opaque security context, as serialized text.
    pub security_context: Option<String>,
    pub skip_password_check: Option<bool>,
}

/// The session context an authentication establishes.
pub struct NativeAuthContext {
    pub user: Option<String>,
    pub superuser: bool,
    /// Opaque security context, as serialized text.
    pub security_context: Option<String>,
}

/// The authentication result handed back to the SQL layer.
pub struct AuthenticateResponse {
    pub context: NativeAuthContext,
    pub password: Option<String>,
    pub skip_password_check: bool,
}

/// The span identifier of a request: the request id with the first span's
/// suffix.
pub fn span_request_id(request_id: &str) -> (r: String)
    ensures
        r@ == request_id@ + "-span-1"@,
{
    request_id.to_owned().concat("-span-1")
}

/// Builds the credential-check request the bridge sends: the span id, no
/// metadata, and the connection's user and password as given.
pub fn build_check_auth_request(
    request_id: &str,
    user: Option<String>,
    password: Option<String>,
) -> (r: CheckSqlAuthRequest)
    ensures
        r.request.id@ == request_id@ + "-span-1"@,
        r.request.meta is None,
        r.user == user,
        r.password == password,
{
    CheckSqlAuthRequest {
        request: TransportRequest { id: span_request_id(request_id), meta: None },
        user,
        password,
    }
}

/// Maps the identity service's reply into the authentication result: the
/// connection's user and the reply's superuser flag and security context form
/// the session context, the reply's password is passed through, and an absent
/// skip-password-check flag means the check is not skipped.
pub fn authenticate_response(user: Option<String>, response: CheckSqlAuthResponse) -> (r:
    AuthenticateResponse)
    ensures
        r.context.user == user,
        r.context.superuser == response.superuser,
        r.context.security_context == response.security_context,
        r.password == response.password,
        r.skip_password_check == (match response.skip_password_check {
            Some(b) => b,
            None => false,
        }),
{
    let skip_password_check = match response.skip_password_check {
        Some(b) => b,
        None => false,
    };
    AuthenticateResponse {
        context: NativeAuthContext {
            user,
            superuser: response.superuser,
            security_context: response.security_context,
        },
        password: response.password,
        skip_password_check,
    }
}

} // verus!
