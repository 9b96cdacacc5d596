//! The built-in remote-access method handler.
//!
//! One reserved direct method carries a JSON request naming a tunnel
//! identity, a local target port and a remote secure endpoint.  The
//! handler validates the request, builds the connection details for the
//! tunnel connection manager, and turns the manager's verdict into the
//! method result sent back to the cloud caller.  The connect itself runs
//! on the manager's own background thread outside the library, which
//! hands its outcome to [`RemoteAccessMethodHandler::connect_response`].

use vstd::prelude::*;

use crate::dispatch::MethodError;
use crate::dispatch::MethodResult;
use crate::dispatch::MethodReturnValue;
use crate::tunnel::ConnectionDetails;
use crate::tunnel::ConnectionError;

verus! {

/// The reserved method name that remote-access requests arrive under.
pub fn remote_access_method_name() -> (r: &'static str)
    ensures
        r@ == "!remote-access"@,
{
    "!remote-access"
}

/// The fields a remote-access request must carry: the tunnel identity
/// (the 128-bit value of its UUID), the local target port, the remote
/// secure endpoint URI, and an optional trace-correlation header.
#[derive(Debug)]
pub struct RequestPayload {
    pub tunnel_id: u128,
    pub port: u16,
    pub tunnel_secure_uri: String,
    pub traceparent_header: Option<String>,
}

/// What parsing a remote-access request body yields: `Some` exactly for a
/// JSON object with a `tunnelId` UUID string, a `port` number fitting a
/// `u16`, a `tunnelSecureUri` string, and an absent, null or string
/// `traceparentHeader`.  The result depends on the payload bytes alone.
pub uninterp spec fn parsed_payload(payload: Seq<u8>) -> Option<RequestPayload>;

/// Relies on serde_json — `from_slice` into a JSON value and the `get`,
/// `as_str`, `as_u64` and `is_null` accessors — and on
/// `uuid::Uuid::parse_str` / `as_u128` and `u16::try_from`, to read the
/// request fields; each step's failure makes the whole parse `None`.
#[verifier::external_body]
fn parse_request_payload(payload: &[u8]) -> (r: Option<RequestPayload>)
    ensures
        r == parsed_payload(payload@),
{
    let v: serde_json::Value = serde_json::from_slice(payload).ok()?;
    let tunnel_id = uuid::Uuid::parse_str(v.get("tunnelId")?.as_str()?).ok()?.as_u128();
    let port = u16::try_from(v.get("port")?.as_u64()?).ok()?;
    let tunnel_secure_uri = v.get("tunnelSecureUri")?.as_str()?.to_string();
    let traceparent_header = match v.get("traceparentHeader") {
        None => None,
        Some(t) if t.is_null() => None,
        Some(t) => Some(t.as_str()?.to_string()),
    };
    Some(RequestPayload { tunnel_id, port, tunnel_secure_uri, traceparent_header })
}

/// Whether a text parses as a URI; the answer depends on the characters
/// alone.
pub uninterp spec fn uri_valid(s: Seq<char>) -> bool;

/// Relies on `http::Uri`'s `TryFrom<&str>` implementation to decide
/// whether the text is a well-formed URI.
#[verifier::external_body]
fn check_uri(s: &str) -> (r: bool)
    ensures
        r == uri_valid(s@),
{
    http::Uri::try_from(s).is_ok()
}

/// The handler for the reserved remote-access method.
pub struct RemoteAccessMethodHandler {}

impl RemoteAccessMethodHandler {
    pub fn new() -> Self {
        RemoteAccessMethodHandler {}
    }

    /// Validates one request body and builds the connection details to
    /// hand the tunnel connection manager: a body that does not parse is
    /// rejected as an invalid payload, a parsed body whose URI text is
    /// not a valid URI is rejected as an invalid tunnel secure URI, and
    /// every other body yields exactly its fields as details.
    pub fn prepare_request(&self, payload: &[u8]) -> (r: Result<ConnectionDetails, MethodError>)
        ensures
            match parsed_payload(payload@) {
                None => (r matches Err(e) && e.status_code == 400 && e.message@
                    == "Invalid payload"@),
                Some(p) => {
                    if uri_valid(p.tunnel_secure_uri@) {
                        r matches Ok(d) && d.tunnel_id == p.tunnel_id && d.target_port == p.port
                            && d.tunnel_secure_uri == p.tunnel_secure_uri && d.traceparent_header
                            == p.traceparent_header
                    } else {
                        r matches Err(e) && e.status_code == 400 && e.message@
                            == "Invalid tunnel secure URI"@
                    }
                },
            },
    {
        let p = match parse_request_payload(payload) {
            Some(p) => p,
            None => {
                return Err(MethodError::new(400, String::from_str("Invalid payload")));
            },
        };
        if !check_uri(p.tunnel_secure_uri.as_str()) {
            return Err(MethodError::new(400, String::from_str("Invalid tunnel secure URI")));
        }
        Ok(
            ConnectionDetails {
                tunnel_id: p.tunnel_id,
                target_port: p.port,
                tunnel_secure_uri: p.tunnel_secure_uri,
                traceparent_header: p.traceparent_header,
            },
        )
    }

    /// The method result for one connect outcome: success is a 200 with
    /// no body, a still-live previous attempt is a 409, and either
    /// connection leg's failure is a 500 naming the failed leg and its
    /// cause.
    pub fn connect_response(&self, result: Result<(), ConnectionError>) -> (r: MethodResult)
        ensures
            match result {
                Ok(_) => (r matches Ok(v) && v.status_code == 200 && v.body is None),
                Err(ConnectionError::PreviousAttemptStillActive(_)) => (r matches Err(e)
                    && e.status_code == 409 && e.message@ == "Previous attempt still active."@),
                Err(ConnectionError::TargetPortConnectionFailed(c)) => (r matches Err(e)
                    && e.status_code == 500 && e.message@
                    == "Failed to connect to target port: "@ + c@),
                Err(ConnectionError::ServerConnectionFailed(c)) => (r matches Err(e)
                    && e.status_code == 500 && e.message@
                    == "Failed to connect to remote server: "@ + c@),
            },
    {
        match result {
            Ok(_) => Ok(MethodReturnValue::new(200, None)),
            Err(ConnectionError::PreviousAttemptStillActive(_)) => Err(
                MethodError::new(409, String::from_str("Previous attempt still active.")),
            ),
            Err(ConnectionError::TargetPortConnectionFailed(c)) => Err(
                MethodError::new(
                    500,
                    String::from_str("Failed to connect to target port: ").concat(c.as_str()),
                ),
            ),
            Err(ConnectionError::ServerConnectionFailed(c)) => Err(
                MethodError::new(
                    500,
                    String::from_str("Failed to connect to remote server: ").concat(c.as_str()),
                ),
            ),
        }
    }
}

} // verus!
