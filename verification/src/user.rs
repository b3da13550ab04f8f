//! Handlers for the user endpoints and the JSON bodies they produce.

use vstd::prelude::*;
use crate::errors::{AppError, HttpResponse};
use crate::json::{json_encoded_str, json_quote};
use crate::middleware::{auth_middleware, AuthDecision};
use crate::models::{AppState, CreateUserRequest, User, UserItem};
use crate::text::{push_dec_i32, spec_dec_int};

verus! {

/// The JSON record for one user, fields in declaration order.
pub open spec fn spec_user_json(u: User) -> Seq<char> {
    "{\"id\":"@ + spec_dec_int(u.id as int) + ",\"name\":"@ + json_encoded_str(u.name@)
        + ",\"email\":"@ + json_encoded_str(u.email@) + "}"@
}

/// The comma-separated JSON records of the users from index `i` on.
pub open spec fn spec_users_json_from(users: Seq<User>, i: int) -> Seq<char>
    decreases users.len() - i,
{
    if i < 0 || i >= users.len() {
        Seq::<char>::empty()
    } else if i == users.len() - 1 {
        spec_user_json(users[i])
    } else {
        spec_user_json(users[i]) + ","@ + spec_users_json_from(users, i + 1)
    }
}

/// The JSON array of user records.
pub open spec fn spec_users_json(users: Seq<User>) -> Seq<char> {
    "["@ + spec_users_json_from(users, 0) + "]"@
}

/// The JSON record for the reduced projection returned by delete
/// operations, fields in declaration order.
pub open spec fn spec_user_item_json(u: UserItem) -> Seq<char> {
    "{\"id\":"@ + spec_dec_int(u.id as int) + ",\"name\":"@ + json_encoded_str(u.name@) + "}"@
}

/// Builds the JSON record for a reduced user projection.
pub fn user_item_json(u: &UserItem) -> (b: String)
    ensures
        b@ == spec_user_item_json(*u),
{
    let mut b = String::from_str("{\"id\":");
    push_dec_i32(&mut b, u.id);
    b.append(",\"name\":");
    let qname = json_quote(u.name.as_str());
    b.append(qname.as_str());
    b.append("}");
    proof {
        assert(b@ =~= spec_user_item_json(*u));
    }
    b
}

/// The success body of user creation: a confirmation message echoing the
/// submitted name and email.
pub open spec fn spec_user_created_body(name: Seq<char>, email: Seq<char>) -> Seq<char> {
    "{\"message\":\"User Created Successfully\",\"user\":{\"name\":"@ + json_encoded_str(name)
        + ",\"email\":"@ + json_encoded_str(email) + "}}"@
}

/// The configuration snapshot returned by the admin endpoint: every
/// non-secret field of the state, keys in alphabetical order, and never the
/// admin API key.
pub open spec fn spec_app_state_body(s: AppState) -> Seq<char> {
    "{\"db_host\":"@ + json_encoded_str(s.db_host@) + ",\"db_name\":"@ + json_encoded_str(
        s.db_name@,
    ) + ",\"db_port\":"@ + json_encoded_str(s.db_port@) + ",\"db_user\":"@ + json_encoded_str(
        s.db_user@,
    ) + ",\"server_host\":"@ + json_encoded_str(s.server_host@) + ",\"server_port\":"@
        + json_encoded_str(s.server_port@) + "}"@
}

/// Appends the JSON record for one user to `s`.
fn push_user_json(s: &mut String, u: &User)
    ensures
        final(s)@ == old(s)@ + spec_user_json(*u),
{
    s.append("{\"id\":");
    push_dec_i32(s, u.id);
    s.append(",\"name\":");
    let qname = json_quote(u.name.as_str());
    s.append(qname.as_str());
    s.append(",\"email\":");
    let qemail = json_quote(u.email.as_str());
    s.append(qemail.as_str());
    s.append("}");
    proof {
        assert(s@ =~= old(s)@ + spec_user_json(*u));
    }
}

/// Appends the comma-separated JSON records of the users from index `i` on.
fn push_users_json_from(s: &mut String, users: &Vec<User>, i: usize)
    requires
        i <= users.len(),
    ensures
        final(s)@ == old(s)@ + spec_users_json_from(users@, i as int),
    decreases users.len() - i,
{
    if i < users.len() {
        push_user_json(s, &users[i]);
        if i + 1 < users.len() {
            s.append(",");
        }
        push_users_json_from(s, users, i + 1);
        proof {
            assert(s@ =~= old(s)@ + spec_users_json_from(users@, i as int));
        }
    }
}

/// Builds the JSON array of user records.
pub fn users_json_body(users: &Vec<User>) -> (b: String)
    ensures
        b@ == spec_users_json(users@),
{
    let mut b = String::from_str("[");
    push_users_json_from(&mut b, users, 0);
    b.append("]");
    proof {
        assert(b@ =~= spec_users_json(users@));
    }
    b
}

/// Handler for the plain user-creation endpoint: no input, no persistence,
/// always a static confirmation.
pub fn create_user() -> (r: HttpResponse)
    ensures
        r.status == 201,
        r.body@ == "User Created Successfully"@,
{
    HttpResponse { status: 201, body: String::from_str("User Created Successfully") }
}

/// Handler for storage-backed user creation, given the outcome of the
/// parameterized insert: on success a confirmation echoing the submitted
/// name and email, on storage failure an internal error carrying the
/// driver's message.
pub fn create_user_db(user_data: CreateUserRequest, db_result: Result<(), String>) -> (r: Result<
    HttpResponse,
    AppError,
>)
    ensures
        db_result is Ok <==> r is Ok,
        r matches Ok(resp) ==> resp.status == 201 && resp.body@ == spec_user_created_body(
            user_data.name@,
            user_data.email@,
        ),
        r matches Err(e) ==> (e matches AppError::InternalServerError(em) && db_result matches Err(
            dm,
        ) && em@ == "Failed to create user - "@ + dm@),
{
    match db_result {
        Ok(_) => {
            let mut body = String::from_str("{\"message\":\"User Created Successfully\",\"user\":{\"name\":");
            let qname = json_quote(user_data.name.as_str());
            body.append(qname.as_str());
            body.append(",\"email\":");
            let qemail = json_quote(user_data.email.as_str());
            body.append(qemail.as_str());
            body.append("}}");
            proof {
                assert(body@ =~= spec_user_created_body(user_data.name@, user_data.email@));
            }
            Ok(HttpResponse { status: 201, body })
        },
        Err(e) => {
            let mut msg = String::from_str("Failed to create user - ");
            msg.append(e.as_str());
            Err(AppError::InternalServerError(msg))
        },
    }
}

/// Handler for the demo user list: a static, hardcoded two-element list,
/// independent of any store state.
pub fn list_users() -> (users: Vec<User>)
    ensures
        users@.len() == 2,
        users@[0].id == 1,
        users@[0].name@ == "Elijah"@,
        users@[0].email@ == "elijah@example.com"@,
        users@[1].id == 2,
        users@[1].name@ == "John"@,
        users@[1].email@ == "john@doe.com"@,
{
    let mut users: Vec<User> = Vec::new();
    users.push(
        User {
            id: 1,
            name: String::from_str("Elijah"),
            email: String::from_str("elijah@example.com"),
        },
    );
    users.push(
        User { id: 2, name: String::from_str("John"), email: String::from_str("john@doe.com") },
    );
    users
}

/// Handler for the storage-backed user list, given the fetched rows or the
/// driver's error message: on success the JSON array of all rows, on failure
/// an internal error carrying the message.
pub fn list_users_db(rows: Result<Vec<User>, String>) -> (r: Result<HttpResponse, AppError>)
    ensures
        rows is Ok <==> r is Ok,
        r matches Ok(resp) ==> resp.status == 200 && (rows matches Ok(users) && resp.body@
            == spec_users_json(users@)),
        r matches Err(e) ==> (e matches AppError::InternalServerError(em) && rows matches Err(dm)
            && em@ == "Failed to fetch users from DB - "@ + dm@),
{
    match rows {
        Ok(users) => {
            let body = users_json_body(&users);
            Ok(HttpResponse { status: 200, body })
        },
        Err(e) => {
            let mut msg = String::from_str("Failed to fetch users from DB - ");
            msg.append(e.as_str());
            Err(AppError::InternalServerError(msg))
        },
    }
}

/// Decodes one fetched user row from its optional columns: a missing or
/// malformed column falls back to the zero value or the empty string rather
/// than failing the whole read.
pub fn decode_user_row(id: Option<i32>, name: Option<String>, email: Option<String>) -> (u: User)
    ensures
        u.id == (match id {
            Option::Some(v) => v,
            Option::None => 0,
        }),
        u.name@ == (match name {
            Option::Some(v) => v@,
            Option::None => Seq::<char>::empty(),
        }),
        u.email@ == (match email {
            Option::Some(v) => v@,
            Option::None => Seq::<char>::empty(),
        }),
{
    User {
        id: match id {
            Option::Some(v) => v,
            Option::None => 0,
        },
        name: match name {
            Option::Some(v) => v,
            Option::None => String::new(),
        },
        email: match email {
            Option::Some(v) => v,
            Option::None => String::new(),
        },
    }
}

/// Placeholder delete policy: the user with id `1` can never be deleted,
/// every other id succeeds.
pub fn perform_delete_user(user_id: i32) -> (r: Result<(), String>)
    ensures
        user_id == 1 <==> r is Err,
        r matches Err(m) ==> m@ == "User Can NOT be deleted"@,
{
    if user_id == 1 {
        Err(String::from_str("User Can NOT be deleted"))
    } else {
        Ok(())
    }
}

/// Handler for user deletion: the non-deletable id is reported as not
/// found, every other id yields the reduced record with an empty name.
pub fn delete_user(user_id: i32) -> (r: Result<UserItem, AppError>)
    ensures
        user_id == 1 <==> r is Err,
        r matches Ok(u) ==> u.id == user_id && u.name@ == Seq::<char>::empty(),
        r matches Err(e) ==> (e matches AppError::UserNotFound(eid, m) && eid == user_id && m@
            == "User Can NOT be deleted"@),
{
    match perform_delete_user(user_id) {
        Ok(_) => Ok(UserItem { id: user_id, name: String::new() }),
        Err(e) => Err(AppError::UserNotFound(user_id, e)),
    }
}

/// Handler for the admin configuration endpoint: a JSON snapshot of the
/// non-secret state fields; the admin API key itself is never echoed.
pub fn get_app_state(state: &AppState) -> (r: HttpResponse)
    ensures
        r.status == 200,
        r.body@ == spec_app_state_body(*state),
{
    let mut body = String::from_str("{\"db_host\":");
    let q_db_host = json_quote(state.db_host.as_str());
    body.append(q_db_host.as_str());
    body.append(",\"db_name\":");
    let q_db_name = json_quote(state.db_name.as_str());
    body.append(q_db_name.as_str());
    body.append(",\"db_port\":");
    let q_db_port = json_quote(state.db_port.as_str());
    body.append(q_db_port.as_str());
    body.append(",\"db_user\":");
    let q_db_user = json_quote(state.db_user.as_str());
    body.append(q_db_user.as_str());
    body.append(",\"server_host\":");
    let q_server_host = json_quote(state.server_host.as_str());
    body.append(q_server_host.as_str());
    body.append(",\"server_port\":");
    let q_server_port = json_quote(state.server_port.as_str());
    body.append(q_server_port.as_str());
    body.append("}");
    proof {
        assert(body@ =~= spec_app_state_body(*state));
    }
    HttpResponse { status: 200, body }
}

/// The admin route group end to end: the API-key gate composed around the
/// state handler. A request with the exact configured key receives the
/// snapshot; any other request is rejected with 401 and the fixed body,
/// without the handler ever running.
pub fn admin_get_app_state(state: &AppState, api_key_header: Option<&String>) -> (r: HttpResponse)
    ensures
        (api_key_header matches Some(k) && k@ == state.admin_api_key@) ==> (r.status == 200
            && r.body@ == spec_app_state_body(*state)),
        (api_key_header is None || (api_key_header matches Some(k) && k@
            != state.admin_api_key@)) ==> (r.status == 401 && r.body@ == "Invalid API Key"@),
{
    match auth_middleware(api_key_header, &state.admin_api_key) {
        AuthDecision::Proceed => get_app_state(state),
        AuthDecision::Reject(rejection) => rejection,
    }
}

/// Law: the admin snapshot depends only on the non-secret fields; two states
/// that differ at most in the admin API key produce the same body, so the
/// key value can never leak into the response.
pub proof fn lemma_app_state_body_ignores_admin_key(s1: AppState, s2: AppState)
    requires
        s1.db_name@ == s2.db_name@,
        s1.db_user@ == s2.db_user@,
        s1.db_host@ == s2.db_host@,
        s1.db_port@ == s2.db_port@,
        s1.server_host@ == s2.server_host@,
        s1.server_port@ == s2.server_port@,
    ensures
        spec_app_state_body(s1) == spec_app_state_body(s2),
{
}

} // verus!
