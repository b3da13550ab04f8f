//! Decision logic of the middleware chain.
//!
//! The wrappers themselves live in the binary (they need the clock and the
//! socket); the decisions they take — whether a request may pass the admin
//! gate, which client address to log, and the exact log line — are made
//! here.

use vstd::prelude::*;
use crate::errors::HttpResponse;
use crate::text::{push_dec_u64, spec_dec_int};

verus! {

/// What the authentication wrapper does with a request: hand it to the
/// inner handler, or short-circuit with a fixed rejection response.
pub enum AuthDecision {
    Proceed,
    Reject(HttpResponse),
}

/// The admin-gate check: the request passes if and only if the API-key
/// header is present and equals the configured secret exactly; otherwise it
/// is rejected with 401 and the fixed body, and the inner handler is never
/// invoked.
pub fn auth_middleware(api_key_header: Option<&String>, admin_api_key: &String) -> (d:
    AuthDecision)
    ensures
        d is Proceed <==> (api_key_header matches Some(k) && k@ == admin_api_key@),
        d matches AuthDecision::Reject(r) ==> r.status == 401 && r.body@ == "Invalid API Key"@,
{
    match api_key_header {
        Option::Some(k) => {
            if *k == *admin_api_key {
                AuthDecision::Proceed
            } else {
                AuthDecision::Reject(
                    HttpResponse { status: 401, body: String::from_str("Invalid API Key") },
                )
            }
        },
        Option::None => AuthDecision::Reject(
            HttpResponse { status: 401, body: String::from_str("Invalid API Key") },
        ),
    }
}

/// The client address to log: the `X-Forwarded-For` header value when one
/// is present, else the transport-layer peer address, else "UNKNOWN".
pub fn resolve_client_ip(forwarded_for: Option<String>, peer_ip: Option<String>) -> (r: String)
    ensures
        forwarded_for matches Some(f) ==> r@ == f@,
        forwarded_for is None ==> (peer_ip matches Some(p) ==> r@ == p@),
        (forwarded_for is None && peer_ip is None) ==> r@ == "UNKNOWN"@,
{
    match forwarded_for {
        Option::Some(f) => f,
        Option::None => match peer_ip {
            Option::Some(p) => p,
            Option::None => String::from_str("UNKNOWN"),
        },
    }
}

/// The one log line emitted per request, after the inner handler: client
/// address, method, URI, resulting status, elapsed milliseconds.
pub open spec fn spec_log_line(
    client_ip: Seq<char>,
    method: Seq<char>,
    uri: Seq<char>,
    status: int,
    elapsed_ms: int,
) -> Seq<char> {
    "|-> "@ + client_ip + " "@ + method + " "@ + uri + " ("@ + spec_dec_int(status) + ") ["@
        + spec_dec_int(elapsed_ms) + " ms]"@
}

/// Builds the request log line. The elapsed time is an unsigned count of
/// milliseconds, so the logged measurement is never negative.
pub fn format_log_line(
    client_ip: &str,
    method: &str,
    uri: &str,
    status: u16,
    elapsed_ms: u64,
) -> (r: String)
    ensures
        r@ == spec_log_line(client_ip@, method@, uri@, status as int, elapsed_ms as int),
{
    let mut line = String::from_str("|-> ");
    line.append(client_ip);
    line.append(" ");
    line.append(method);
    line.append(" ");
    line.append(uri);
    line.append(" (");
    push_dec_u64(&mut line, status as u64);
    line.append(") [");
    push_dec_u64(&mut line, elapsed_ms);
    line.append(" ms]");
    proof {
        assert(line@ =~= spec_log_line(
            client_ip@,
            method@,
            uri@,
            status as int,
            elapsed_ms as int,
        ));
    }
    line
}

} // verus!
