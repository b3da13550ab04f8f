//! Assembly of the startup configuration from plain environment values.
//!
//! Reading the environment and opening the connection pool happen in the
//! binary; the pure parts — the connection URL and the state snapshot with
//! its defaults — are built here.

use vstd::prelude::*;
use crate::models::AppState;

verus! {

/// The database connection URL assembled from its parts.
pub open spec fn spec_db_url(
    user: Seq<char>,
    password: Seq<char>,
    host: Seq<char>,
    port: Seq<char>,
    name: Seq<char>,
) -> Seq<char> {
    "mysql://"@ + user + ":"@ + password + "@"@ + host + ":"@ + port + "/"@ + name
}

/// Builds the database connection URL.
pub fn build_db_url(user: &str, password: &str, host: &str, port: &str, name: &str) -> (r: String)
    ensures
        r@ == spec_db_url(user@, password@, host@, port@, name@),
{
    let mut url = String::from_str("mysql://");
    url.append(user);
    url.append(":");
    url.append(password);
    url.append("@");
    url.append(host);
    url.append(":");
    url.append(port);
    url.append("/");
    url.append(name);
    proof {
        assert(url@ =~= spec_db_url(user@, password@, host@, port@, name@));
    }
    url
}

/// Builds the immutable configuration snapshot. The bind host and port fall
/// back to their defaults when the environment leaves them unset; every
/// other field is required and passed through unchanged.
pub fn make_app_state(
    db_name: String,
    db_user: String,
    db_host: String,
    db_port: String,
    host: Option<String>,
    port: Option<String>,
    admin_api_key: String,
) -> (s: AppState)
    ensures
        s.db_name@ == db_name@,
        s.db_user@ == db_user@,
        s.db_host@ == db_host@,
        s.db_port@ == db_port@,
        s.server_host@ == (match host {
            Option::Some(h) => h@,
            Option::None => "0.0.0.0"@,
        }),
        s.server_port@ == (match port {
            Option::Some(p) => p@,
            Option::None => "3000"@,
        }),
        s.admin_api_key@ == admin_api_key@,
{
    AppState {
        db_name,
        db_user,
        db_host,
        db_port,
        server_host: match host {
            Option::Some(h) => h,
            Option::None => String::from_str("0.0.0.0"),
        },
        server_port: match port {
            Option::Some(p) => p,
            Option::None => String::from_str("3000"),
        },
        admin_api_key,
    }
}

} // verus!
