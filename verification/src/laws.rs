//! What holds across calls. Each law is stated over the predicates that the
//! operations promise in their contracts, so it holds of every store and
//! controller that keeps those contracts.

use crate::login::CookieModel;
use crate::pipeline::{cookie_named, RequestModel, Response};
use crate::result::{AppError, Result, Status};
use crate::routes::session::{
    clearing, forbidden_response, login_outcome, logout, not_found_response, requested_id,
    resolution, session_json, whoami,
};
use crate::sessions::{
    admitted, authentication, issued, lookup_outcome, removal, session_of, session_view,
    CredentialsModel, SessionModel, UserSession,
};
use crate::users::UserModel;
use vstd::prelude::*;

verus! {

/// Right credentials get a session. When a reliable store authenticates
/// credentials that match a stored user, it returns a session that is marked
/// authenticated, belongs to that user and has a non-empty id, and a lookup
/// of that id right afterwards finds an equal session.
pub proof fn law_login_issues_session(
    users: Map<Seq<char>, UserModel>,
    creds: CredentialsModel,
    before: Map<Seq<char>, SessionModel>,
    outcome: Result<UserSession>,
    after: Map<Seq<char>, SessionModel>,
    found: Result<Option<UserSession>>,
)
    requires
        users.contains_key(creds.username),
        users[creds.username].password == creds.password,
        authentication(users, true, creds, before, outcome, after),
        lookup_outcome(true, after, outcome->Ok_0@.session_id, found),
    ensures
        outcome is Ok,
        outcome->Ok_0@.authenticated,
        outcome->Ok_0@.session_id.len() > 0,
        outcome->Ok_0@.username == creds.username,
        outcome->Ok_0@.user_id == users[creds.username].id,
        found is Ok,
        session_view(found->Ok_0) == Some(outcome->Ok_0@),
{
}

/// A login disturbs no other session. Whatever was stored under an id other
/// than the new session's is found as before; only a session that happened
/// to be stored under the very id that was drawn is replaced.
pub proof fn law_login_keeps_others(
    users: Map<Seq<char>, UserModel>,
    reliable: bool,
    creds: CredentialsModel,
    before: Map<Seq<char>, SessionModel>,
    outcome: Result<UserSession>,
    after: Map<Seq<char>, SessionModel>,
    other: Seq<char>,
)
    requires
        authentication(users, reliable, creds, before, outcome, after),
        outcome is Ok ==> other != outcome->Ok_0@.session_id,
    ensures
        session_of(after, other) == session_of(before, other),
{
}

/// Wrong credentials are refused alike. A reliable store fails with
/// `InvalidUsernameOrPassword` when the username is unknown and when the
/// password does not match, and stores nothing either way.
pub proof fn law_wrong_credentials_refused(
    users: Map<Seq<char>, UserModel>,
    creds: CredentialsModel,
    before: Map<Seq<char>, SessionModel>,
    outcome: Result<UserSession>,
    after: Map<Seq<char>, SessionModel>,
)
    requires
        !users.contains_key(creds.username) || users[creds.username].password != creds.password,
        authentication(users, true, creds, before, outcome, after),
    ensures
        outcome is Err,
        outcome->Err_0 == AppError::InvalidUsernameOrPassword,
        after == before,
{
}

/// The answer to a refused login does not tell an unknown username from a
/// wrong password: over a reliable store both get the same `403` response,
/// which sets no cookie.
pub proof fn law_refusals_indistinguishable(
    users: Map<Seq<char>, UserModel>,
    template: CookieModel,
    unknown: CredentialsModel,
    mistaken: CredentialsModel,
    first_before: Map<Seq<char>, SessionModel>,
    first: Result<Response>,
    first_after: Map<Seq<char>, SessionModel>,
    second_before: Map<Seq<char>, SessionModel>,
    second: Result<Response>,
    second_after: Map<Seq<char>, SessionModel>,
)
    requires
        !users.contains_key(unknown.username),
        users.contains_key(mistaken.username),
        users[mistaken.username].password != mistaken.password,
        login_outcome(users, true, unknown, template, first_before, first, first_after),
        login_outcome(users, true, mistaken, template, second_before, second, second_after),
    ensures
        first is Ok,
        second is Ok,
        first->Ok_0@ == second->Ok_0@,
        first->Ok_0@ == forbidden_response(),
        first->Ok_0@.status == Status::Forbidden,
        first->Ok_0@.cookies.len() == 0,
        first_after == first_before,
        second_after == second_before,
{
}

/// A session is removed once. After a successful authentication over a
/// reliable store, removing the session's id reports `true`, removing it
/// again reports `false`, and a lookup of the id then finds nothing.
pub proof fn law_session_removed_once(
    users: Map<Seq<char>, UserModel>,
    creds: CredentialsModel,
    before: Map<Seq<char>, SessionModel>,
    outcome: Result<UserSession>,
    logged_in: Map<Seq<char>, SessionModel>,
    first: Result<bool>,
    once: Map<Seq<char>, SessionModel>,
    second: Result<bool>,
    twice: Map<Seq<char>, SessionModel>,
    found: Result<Option<UserSession>>,
)
    requires
        outcome is Ok,
        authentication(users, true, creds, before, outcome, logged_in),
        removal(true, logged_in, outcome->Ok_0@.session_id, first, once),
        removal(true, once, outcome->Ok_0@.session_id, second, twice),
        lookup_outcome(true, twice, outcome->Ok_0@.session_id, found),
    ensures
        first == Ok::<bool, AppError>(true),
        second == Ok::<bool, AppError>(false),
        found is Ok,
        found->Ok_0 is None,
{
}

/// Removing a session touches no other: whatever was stored under another
/// id is found as before.
pub proof fn law_removal_keeps_others(
    before: Map<Seq<char>, SessionModel>,
    session_id: Seq<char>,
    removed: Result<bool>,
    after: Map<Seq<char>, SessionModel>,
    other: Seq<char>,
)
    requires
        removal(true, before, session_id, removed, after),
        other != session_id,
    ensures
        session_of(after, other) == session_of(before, other),
{
}

/// Clearing without a cookie is harmless, however often it is done. For a
/// request that carries the login configuration but no cookie of the
/// configured name, `clear_session` reports `false` without an error and
/// leaves the store as it was, the first time and every time after.
pub proof fn law_clear_without_cookie(
    req: RequestModel,
    reliable: bool,
    before: Map<Seq<char>, SessionModel>,
    first: Result<bool>,
    once: Map<Seq<char>, SessionModel>,
    second: Result<bool>,
    twice: Map<Seq<char>, SessionModel>,
)
    requires
        req.config is Some,
        cookie_named(req.cookies, req.config->Some_0.name) is None,
        clearing(req, reliable, before, first, once),
        clearing(req, reliable, once, second, twice),
    ensures
        first == Ok::<bool, AppError>(false),
        second == Ok::<bool, AppError>(false),
        once == before,
        twice == before,
{
}

/// Clearing is idempotent. Over a reliable store, a second `clear_session`
/// for the same request reports `false` and changes nothing, whatever the
/// first one did.
pub proof fn law_clear_twice(
    req: RequestModel,
    before: Map<Seq<char>, SessionModel>,
    first: Result<bool>,
    once: Map<Seq<char>, SessionModel>,
    second: Result<bool>,
    twice: Map<Seq<char>, SessionModel>,
)
    requires
        req.config is Some,
        clearing(req, true, before, first, once),
        clearing(req, true, once, second, twice),
    ensures
        second == Ok::<bool, AppError>(false),
        twice == once,
{
    match requested_id(req) {
        Ok(Some(id)) => {
            assert(once.remove(id) =~= once);
        },
        _ => {},
    }
}

/// The store after each of `issued` was stored in turn, as a run of
/// successful authentications does.
pub open spec fn stored_all(before: Map<Seq<char>, SessionModel>, issued: Seq<SessionModel>)
    -> Map<Seq<char>, SessionModel>
    decreases issued.len(),
{
    if issued.len() == 0 {
        before
    } else {
        stored_all(before, issued.drop_last()).insert(issued.last().session_id, issued.last())
    }
}

/// Sessions with distinct ids do not disturb each other. After any number
/// of sessions with pairwise distinct ids were stored, in whatever order the
/// logins were served, each of them is found under its id, and a session
/// that was stored before under yet another id is found unchanged.
pub proof fn law_distinct_sessions_all_found(
    before: Map<Seq<char>, SessionModel>,
    issued: Seq<SessionModel>,
)
    requires
        forall|i: int, j: int|
            0 <= i < j < issued.len() ==> issued[i].session_id != issued[j].session_id,
    ensures
        forall|i: int|
            0 <= i < issued.len() ==> session_of(
                stored_all(before, issued),
                #[trigger] issued[i].session_id,
            ) == Some(issued[i]),
        forall|id: Seq<char>|
            (forall|i: int| 0 <= i < issued.len() ==> issued[i].session_id != id) ==> #[trigger]
            session_of(stored_all(before, issued), id) == session_of(before, id),
    decreases issued.len(),
{
    if issued.len() > 0 {
        let earlier = issued.drop_last();
        law_distinct_sessions_all_found(before, earlier);
        let last = issued.last();
        assert forall|i: int| 0 <= i < issued.len() implies session_of(
            stored_all(before, issued),
            #[trigger] issued[i].session_id,
        ) == Some(issued[i]) by {
            if i < issued.len() - 1 {
                assert(earlier[i] == issued[i]);
                assert(issued[i].session_id != last.session_id);
            }
        }
        assert forall|id: Seq<char>|
            (forall|i: int|
                0 <= i < issued.len() ==> issued[i].session_id != id) implies #[trigger] session_of(
            stored_all(before, issued),
            id,
        ) == session_of(before, id) by {
            assert(issued[issued.len() - 1].session_id != id);
            assert forall|i: int| 0 <= i < earlier.len() implies earlier[i].session_id != id by {
                assert(earlier[i] == issued[i]);
            }
            assert(session_of(stored_all(before, earlier), id) == session_of(before, id));
        }
    }
}

/// Right credentials are answered with `200`. Over a reliable store, a
/// login with credentials that match a stored user is answered `200` with
/// the session of that user as its body and exactly one cookie, the login
/// cookie of the configuration with the new session's id, and the session
/// is in the store afterwards.
pub proof fn law_login_answered(
    users: Map<Seq<char>, UserModel>,
    creds: CredentialsModel,
    template: CookieModel,
    before: Map<Seq<char>, SessionModel>,
    login: Result<Response>,
    after: Map<Seq<char>, SessionModel>,
)
    requires
        users.contains_key(creds.username),
        users[creds.username].password == creds.password,
        login_outcome(users, true, creds, template, before, login, after),
    ensures
        login is Ok,
        login->Ok_0@.status == Status::Success,
        login->Ok_0@.cookies.len() == 1,
        login->Ok_0@.cookies[0].name == template.name,
        login->Ok_0@.cookies[0].value.len() > 0,
        login->Ok_0@.body == session_json(
            issued(users[creds.username], login->Ok_0@.cookies[0].value),
        ),
        session_of(after, login->Ok_0@.cookies[0].value) == Some(
            issued(users[creds.username], login->Ok_0@.cookies[0].value),
        ),
{
}

/// After a login, the login cookie names the session. When credentials that
/// match a stored user were used to log in over a reliable store, a later
/// request that carries the cookie of the answer under the same
/// configuration is resolved to the session of the login, and asking for
/// the current session answers `200` with the body that the login answered
/// with.
pub proof fn law_login_then_whoami(
    users: Map<Seq<char>, UserModel>,
    creds: CredentialsModel,
    template: CookieModel,
    before: Map<Seq<char>, SessionModel>,
    login: Result<Response>,
    logged_in: Map<Seq<char>, SessionModel>,
    req: RequestModel,
    outcome: Result<()>,
    resolved: RequestModel,
    answer: Result<Response>,
)
    requires
        users.contains_key(creds.username),
        users[creds.username].password == creds.password,
        login_outcome(users, true, creds, template, before, login, logged_in),
        req.config == Some(template),
        cookie_named(req.cookies, template.name) == Some(login->Ok_0@.cookies[0]),
        resolution(req, true, logged_in, outcome, resolved),
        whoami(resolved, answer),
    ensures
        login is Ok,
        login->Ok_0@.status == Status::Success,
        outcome is Ok,
        answer is Ok,
        resolved.session is Some,
        resolved.session->Some_0 is Some,
        resolved.session->Some_0->Some_0.session_id == login->Ok_0@.cookies[0].value,
        resolved.session->Some_0->Some_0.authenticated,
        answer->Ok_0@.status == Status::Success,
        answer->Ok_0@.body == login->Ok_0@.body,
{
}

/// After a logout, the cookie names nothing. When a logout over a reliable
/// store was answered, the same request resolved again has no session, and
/// asking for the current session answers `404`.
pub proof fn law_logout_ends_session(
    req: RequestModel,
    before: Map<Seq<char>, SessionModel>,
    bye: Result<Response>,
    logged_out: Map<Seq<char>, SessionModel>,
    outcome: Result<()>,
    resolved: RequestModel,
    answer: Result<Response>,
)
    requires
        bye is Ok,
        logout(req, true, before, bye, logged_out),
        resolution(req, true, logged_out, outcome, resolved),
        whoami(resolved, answer),
    ensures
        bye->Ok_0@.status == Status::Success,
        outcome is Ok,
        resolved.session == Some(None::<SessionModel>),
        answer is Ok,
        answer->Ok_0@ == not_found_response(),
        answer->Ok_0@.status == Status::NotFound,
{
}

/// Who is resolved is logged in. A session that `before` attaches to a
/// request is stored under the very id that the request's cookie names, and
/// is marked authenticated.
pub proof fn law_resolved_session_is_authenticated(
    req: RequestModel,
    reliable: bool,
    sessions: Map<Seq<char>, SessionModel>,
    outcome: Result<()>,
    resolved: RequestModel,
)
    requires
        resolution(req, reliable, sessions, outcome, resolved),
        resolved.session matches Some(Some(_)),
    ensures
        outcome is Ok,
        requested_id(req) matches Ok(Some(id)) && id.len() > 0 && sessions.contains_key(id)
            && resolved.session->Some_0->Some_0 == sessions[id]
            && resolved.session->Some_0->Some_0.session_id == id
            && resolved.session->Some_0->Some_0.authenticated,
{
}

/// The handlers see what the controller resolved. Once `before` has
/// succeeded for a request over a reliable store, asking for the current
/// session is answered: `200` with that session exactly when the request
/// named a session that the store held, and `404` otherwise.
pub proof fn law_whoami_after_before(
    req: RequestModel,
    sessions: Map<Seq<char>, SessionModel>,
    outcome: Result<()>,
    resolved: RequestModel,
    answer: Result<Response>,
)
    requires
        outcome is Ok,
        resolution(req, true, sessions, outcome, resolved),
        whoami(resolved, answer),
    ensures
        requested_id(req) is Ok,
        answer is Ok,
        match requested_id(req)->Ok_0 {
            Some(id) => if sessions.contains_key(id) {
                answer->Ok_0@.status == Status::Success && answer->Ok_0@.body == session_json(
                    sessions[id],
                )
            } else {
                answer->Ok_0@.status == Status::NotFound
            },
            None => answer->Ok_0@.status == Status::NotFound,
        },
{
}

} // verus!
