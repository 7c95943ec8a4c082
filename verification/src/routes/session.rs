//! The session controller and the three handlers of `/session`.

use crate::json::{
    find_flag, find_text, flag_member, json_bool, json_string, object_members, object_of,
    object_view, string_literal, text_member, Member, MemberModel,
};
use crate::login::{id_of, login_cookie, Config, Cookie, CookieModel, Login, LoginManager};
use crate::pipeline::{cookie_named, Request, RequestModel, Response, ResponseModel};
use crate::result::{AppError, Result, Status};
pub use crate::sessions::{Credentials, InMemorySessions, Sessions, UserSession};
use crate::sessions::{
    admitted, issued, removal, session_of, session_view, well_keyed, CredentialsModel,
    SessionModel,
};
pub use crate::users::{InMemoryUserRepo, User, UserRepo};
use crate::users::UserModel;
use vstd::prelude::*;
use vstd::string::StringExecFns;

verus! {

/// The credentials that a parsed body holds: the strings under `username`
/// and `password`, where the body is an object that has both.
pub open spec fn decoded_credentials(object: Option<Seq<MemberModel>>) -> Option<
    CredentialsModel,
> {
    match object {
        Some(members) => match (
            text_member(members, "username"@),
            text_member(members, "password"@),
        ) {
            (Some(username), Some(password)) => Some(
                CredentialsModel { username: username, password: password },
            ),
            _ => None,
        },
        None => None,
    }
}

/// Reads credentials out of the members of a parsed body.
pub fn credentials_from(parsed: Option<Vec<Member>>) -> (creds: Result<Credentials>)
    ensures
        match decoded_credentials(object_view(parsed)) {
            Some(c) => creds is Ok && creds->Ok_0@ == c,
            None => creds == Err::<Credentials, AppError>(AppError::JsonDecoderError),
        },
{
    match parsed {
        Some(members) => {
            match (find_text(&members, "username"), find_text(&members, "password")) {
                (Some(username), Some(password)) => Ok(Credentials::new(username, password)),
                _ => Err(AppError::JsonDecoderError),
            }
        },
        None => Err(AppError::JsonDecoderError),
    }
}

/// The credentials in the body of a login request. Members other than
/// `username` and `password` are ignored. A body that the parser cannot take
/// is turned down like one that is no JSON.
pub fn parse_credentials(req: &Request) -> (creds: Result<Credentials>)
    ensures
        match decoded_credentials(object_of(req@.body)) {
            Some(c) => creds is Ok && creds->Ok_0@ == c,
            None => creds == Err::<Credentials, AppError>(AppError::JsonDecoderError),
        },
{
    credentials_from(object_members(req.body()))
}

/// The session that a parsed text holds: an object with the strings
/// `username`, `user_id`, `session_id` and the boolean `authenticated`.
pub open spec fn decoded_session(object: Option<Seq<MemberModel>>) -> Option<SessionModel> {
    match object {
        Some(members) => match (
            text_member(members, "username"@),
            text_member(members, "user_id"@),
            text_member(members, "session_id"@),
            flag_member(members, "authenticated"@),
        ) {
            (Some(username), Some(user_id), Some(session_id), Some(authenticated)) => Some(
                SessionModel {
                    username: username,
                    user_id: user_id,
                    session_id: session_id,
                    authenticated: authenticated,
                },
            ),
            _ => None,
        },
        None => None,
    }
}

/// Reads a session out of the members of a parsed text.
pub fn session_from(parsed: Option<Vec<Member>>) -> (session: Result<UserSession>)
    ensures
        match decoded_session(object_view(parsed)) {
            Some(s) => session is Ok && session->Ok_0@ == s,
            None => session == Err::<UserSession, AppError>(AppError::JsonDecoderError),
        },
{
    match parsed {
        Some(members) => {
            match (
                find_text(&members, "username"),
                find_text(&members, "user_id"),
                find_text(&members, "session_id"),
                find_flag(&members, "authenticated"),
            ) {
                (Some(username), Some(user_id), Some(session_id), Some(authenticated)) => {
                    let mut session = UserSession::new(user_id, username, session_id);
                    session.set_authenticated(authenticated);
                    Ok(session)
                },
                _ => Err(AppError::JsonDecoderError),
            }
        },
        None => Err(AppError::JsonDecoderError),
    }
}

/// The session that a JSON text holds.
pub fn parse_session(text: &str) -> (session: Result<UserSession>)
    ensures
        match decoded_session(object_of(text@)) {
            Some(s) => session is Ok && session->Ok_0@ == s,
            None => session == Err::<UserSession, AppError>(AppError::JsonDecoderError),
        },
{
    session_from(object_members(text))
}

/// The JSON object of a session, given the literals of its three strings:
/// the members `username`, `user_id`, `session_id`, `authenticated`, in this
/// order and without white space.
pub open spec fn session_frame(
    username: Seq<char>,
    user_id: Seq<char>,
    session_id: Seq<char>,
    authenticated: bool,
) -> Seq<char> {
    "{\"username\":"@ + username + ",\"user_id\":"@ + user_id + ",\"session_id\":"@ + session_id
        + ",\"authenticated\":"@ + json_bool(authenticated) + "}"@
}

/// The JSON text of a session.
pub open spec fn session_json(session: SessionModel) -> Seq<char> {
    session_frame(
        json_string(session.username),
        json_string(session.user_id),
        json_string(session.session_id),
        session.authenticated,
    )
}

/// Puts the members of a session together from the literals of its strings.
pub fn frame_session(username: &str, user_id: &str, session_id: &str, authenticated: bool) -> (text:
    String)
    ensures
        text@ == session_frame(username@, user_id@, session_id@, authenticated),
{
    let mut text = "{\"username\":".to_owned();
    text.append(username);
    text.append(",\"user_id\":");
    text.append(user_id);
    text.append(",\"session_id\":");
    text.append(session_id);
    text.append(",\"authenticated\":");
    if authenticated {
        text.append("true");
    } else {
        text.append("false");
    }
    text.append("}");
    text
}

/// Writes a session as JSON. Every session can be written; the text is
/// `session_json` of the session.
pub fn serialize_session(session: &UserSession) -> (written: Result<String>)
    ensures
        written matches Ok(text) && text@ == session_json(session@),
{
    let username = match string_literal(session.username()) {
        Ok(literal) => literal,
        Err(e) => { return Err(e); },
    };
    let user_id = match string_literal(session.user_id()) {
        Ok(literal) => literal,
        Err(e) => { return Err(e); },
    };
    let session_id = match string_literal(session.session_id()) {
        Ok(literal) => literal,
        Err(e) => { return Err(e); },
    };
    Ok(
        frame_session(
            username.as_str(),
            user_id.as_str(),
            session_id.as_str(),
            session.authenticated(),
        ),
    )
}

/// The session id that a request names. Without a login configuration there
/// is no telling which cookie to read, and that is an error of the pipeline.
/// With one, the id is the value of the first cookie that bears the
/// configured name; a missing cookie and an empty value both mean no id.
pub open spec fn requested_id(req: RequestModel) -> Result<Option<Seq<char>>> {
    match req.config {
        None => Err(AppError::NoSessionLoaded),
        Some(template) => match cookie_named(req.cookies, template.name) {
            Some(cookie) => if cookie.value.len() > 0 {
                Ok(Some(cookie.value))
            } else {
                Ok(None)
            },
            None => Ok(None),
        },
    }
}

/// What an outcome of `load_session_id` says.
pub open spec fn id_view(id: Result<Option<String>>) -> Result<Option<Seq<char>>> {
    match id {
        Ok(Some(text)) => Ok(Some(text@)),
        Ok(None) => Ok(None),
        Err(e) => Err(e),
    }
}

/// The request with its session slot filled.
pub open spec fn attached(req: RequestModel, session: Option<SessionModel>) -> RequestModel {
    RequestModel { session: Some(session), ..req }
}

/// What clearing the session of a request may report and do. A request that
/// names no session clears nothing and reports `false`; one that names a
/// session has it removed from the store; one without login configuration is
/// an error of the pipeline.
pub open spec fn clearing(
    req: RequestModel,
    reliable: bool,
    before: Map<Seq<char>, SessionModel>,
    cleared: Result<bool>,
    after: Map<Seq<char>, SessionModel>,
) -> bool {
    match requested_id(req) {
        Err(e) => cleared == Err::<bool, AppError>(e) && after == before,
        Ok(None) => cleared == Ok::<bool, AppError>(false) && after == before,
        Ok(Some(id)) => removal(reliable, before, id, cleared, after),
    }
}

/// What resolving the session of a request may report and attach. The slot
/// is filled whatever happens: with the session found, or with `None` where
/// the request names no session, names one that is gone, or could not be
/// resolved. A session that is found comes from a store that holds every
/// session under its own id and holds authenticated sessions only. A request without login configuration and a store that fails
/// are reported; a request without a session is not.
pub open spec fn resolution(
    req: RequestModel,
    reliable: bool,
    sessions: Map<Seq<char>, SessionModel>,
    outcome: Result<()>,
    resolved: RequestModel,
) -> bool {
    match requested_id(req) {
        Err(e) => outcome == Err::<(), AppError>(e) && resolved == attached(req, None),
        Ok(None) => outcome is Ok && resolved == attached(req, None),
        Ok(Some(id)) => match outcome {
            Ok(_) => resolved == attached(req, session_of(sessions, id)) && well_keyed(
                sessions,
            ),
            Err(_) => !reliable && resolved == attached(req, None),
        },
    }
}

/// What asking for the current session answers: `200` with the attached
/// session as JSON, `404` where `None` is attached, and an error of the
/// pipeline where nothing was attached at all, which happens only to a
/// request that never passed the controller.
pub open spec fn whoami(req: RequestModel, answer: Result<Response>) -> bool {
    match req.session {
        None => answer is Err && answer->Err_0 == AppError::NoSessionLoaded,
        Some(None) => answer is Ok && answer->Ok_0@ == not_found_response(),
        Some(Some(session)) => answer is Ok && answer->Ok_0@ == session_response(session),
    }
}

/// Stands between the cookie on the wire and the session in the store,
/// and fills the session slot of each request.
pub struct SessionController<S: Sessions> {
    sessions: S,
    login_manager: LoginManager,
}

impl<S: Sessions> SessionController<S> {
    /// The session store of this controller.
    pub closed spec fn store(&self) -> S {
        self.sessions
    }

    /// The login manager of this controller.
    pub closed spec fn manager(&self) -> LoginManager {
        self.login_manager
    }

    /// A controller over the given store, with the login configuration of
    /// the given manager.
    pub fn new(sessions: S, login_manager: LoginManager) -> (controller: Self)
        ensures
            controller.store() == sessions,
            controller.manager() == login_manager,
    {
        SessionController { sessions: sessions, login_manager: login_manager }
    }

    /// The session store.
    pub fn sessions(&self) -> (sessions: &S)
        ensures
            *sessions == self.store(),
    {
        &self.sessions
    }

    /// The session store, to administer it. The login manager stays as it
    /// is.
    pub fn sessions_mut(&mut self) -> (sessions: &mut S)
        ensures
            *sessions == old(self).store(),
            final(self).store() == *final(sessions),
            final(self).manager() == old(self).manager(),
    {
        &mut self.sessions
    }

    /// The login configuration that login cookies are made from.
    pub fn config(&self) -> (config: &Config)
        ensures
            config@ == self.manager().template(),
    {
        self.login_manager.config()
    }

    /// The session id that the request names, if it names one.
    pub fn load_session_id(&self, req: &Request) -> (id: Result<Option<String>>)
        ensures
            id_view(id) == requested_id(req@),
    {
        let config = match req.config() {
            Some(config) => config,
            None => { return Err(AppError::NoSessionLoaded); },
        };
        let session = match req.get_cookie(config.cookie_base.name.as_str()) {
            Some(c) => if !c.value.as_str().is_empty() {
                Some(c.value.clone())
            } else {
                None
            },
            None => None,
        };
        Ok(session)
    }

    /// The session of the request, with the configuration it was found
    /// under. A request without a cookie and one whose cookie names a session
    /// that the store no longer holds both load `None`.
    pub fn load_session(&self, req: &Request) -> (loaded: Result<Login<UserSession>>)
        ensures
            match requested_id(req@) {
                Err(e) => loaded is Err && loaded->Err_0 == e,
                Ok(None) => loaded is Ok && loaded->Ok_0.session is None && req@.config == Some(
                    loaded->Ok_0.config@,
                ),
                Ok(Some(id)) => match loaded {
                    Ok(login) => session_view(login.session) == session_of(
                        self.store().sessions(),
                        id,
                    ) && req@.config == Some(login.config@) && well_keyed(
                        self.store().sessions(),
                    ),
                    Err(_) => !self.store().reliable(),
                },
            },
    {
        let config = match req.config() {
            Some(config) => config.clone(),
            None => { return Err(AppError::NoSessionLoaded); },
        };
        match self.load_session_id(req) {
            Ok(Some(session_id)) => loaded_from(
                &config,
                self.sessions.lookup(session_id.as_str()),
            ),
            Ok(None) => Ok(Login::new(&config, None)),
            Err(e) => Err(e),
        }
    }

    /// Removes the session that the request names from the store; `true`
    /// exactly when the store held it. A request that names none clears
    /// nothing, which is no error.
    pub fn clear_session(&mut self, req: &Request) -> (cleared: Result<bool>)
        ensures
            final(self).manager() == old(self).manager(),
            final(self).store().reliable() == old(self).store().reliable(),
            final(self).store().users() == old(self).store().users(),
            clearing(
                req@,
                old(self).store().reliable(),
                old(self).store().sessions(),
                cleared,
                final(self).store().sessions(),
            ),
    {
        match self.load_session_id(req) {
            Ok(Some(session_id)) => self.sessions.remove(session_id.as_str()),
            Ok(None) => Ok(false),
            Err(e) => Err(e),
        }
    }

    /// The outbound login cookie for a session: the template of the login
    /// configuration with the session's id as its value. For `None` the value
    /// is empty, which clears the cookie on the client.
    pub fn build_login_cookie(&self, session: Option<UserSession>) -> (cookie: Cookie)
        ensures
            cookie@ == login_cookie(self.manager().template(), id_of(session)),
    {
        Login::new(self.login_manager.config(), session).cookie().into_cookie()
    }

    /// Resolves the session of the request and fills the request's session
    /// slot, once, before the request is routed.
    pub fn before(&self, req: &mut Request) -> (outcome: Result<()>)
        ensures
            resolution(
                old(req)@,
                self.store().reliable(),
                self.store().sessions(),
                outcome,
                final(req)@,
            ),
    {
        let loaded = self.load_session(req);
        attach(req, loaded)
    }
}

/// The login that a lookup amounts to: the session that the store found, or
/// none, under the given configuration; and the store's error as it is where
/// the store failed.
pub fn loaded_from(config: &Config, found: Result<Option<UserSession>>) -> (loaded: Result<
    Login<UserSession>,
>)
    ensures
        match found {
            Ok(session) => loaded is Ok && loaded->Ok_0.session == session
                && loaded->Ok_0.config@ == config@,
            Err(e) => loaded is Err && loaded->Err_0 == e,
        },
{
    match found {
        Ok(session) => Ok(Login::new(config, session)),
        Err(e) => Err(e),
    }
}

/// Fills the session slot of the request from what was loaded: with the
/// session of the login, and with `None` where loading failed, in which case
/// the error of the loading is reported as it is.
pub fn attach(req: &mut Request, loaded: Result<Login<UserSession>>) -> (outcome: Result<()>)
    ensures
        match loaded {
            Ok(login) => outcome is Ok && final(req)@ == attached(
                old(req)@,
                session_view(login.session),
            ),
            Err(e) => outcome == Err::<(), AppError>(e) && final(req)@ == attached(
                old(req)@,
                None,
            ),
        },
{
    match loaded {
        Ok(login) => {
            req.set_session(login.session);
            Ok(())
        },
        Err(e) => {
            req.set_session(None);
            Err(e)
        },
    }
}

/// The answer to a request for the current session where there is none.
pub open spec fn not_found_response() -> ResponseModel {
    ResponseModel { status: Status::NotFound, body: "Not Found"@, cookies: Seq::empty() }
}

/// The answer that carries a session.
pub open spec fn session_response(session: SessionModel) -> ResponseModel {
    ResponseModel { status: Status::Success, body: session_json(session), cookies: Seq::empty() }
}

/// The answer to a successful login: the session, and the login cookie with
/// the session's id for the pipeline to sign.
pub open spec fn login_response(session: SessionModel, template: CookieModel) -> ResponseModel {
    session_response(session).with_cookie(login_cookie(template, Some(session.session_id)))
}

/// The answer to a login with a wrong name or password. It does not say
/// which of the two was wrong, and sets no cookie.
pub open spec fn forbidden_response() -> ResponseModel {
    ResponseModel {
        status: Status::Forbidden,
        body: "invalid username or password"@,
        cookies: Seq::empty(),
    }
}

/// The answer to a login that the store could not decide.
pub open spec fn failure_response() -> ResponseModel {
    ResponseModel {
        status: Status::InternalServerError,
        body: "post session not implemented"@,
        cookies: Seq::empty(),
    }
}

/// The answer to a logout.
pub open spec fn logout_response() -> ResponseModel {
    ResponseModel { status: Status::Success, body: "not implemented"@, cookies: Seq::empty() }
}

/// `GET /session`: the session that the controller attached to the request.
/// The store is not asked again.
pub fn get_session<S: Sessions>(_sc: &SessionController<S>, req: &Request) -> (answer: Result<
    Response,
>)
    ensures
        whoami(req@, answer),
{
    let session = match UserSession::eval(req) {
        Ok(session) => session,
        Err(e) => { return Err(e); },
    };
    match session {
        Some(session) => {
            let session_json = match serialize_session(&session) {
                Ok(text) => text,
                Err(e) => { return Err(e); },
            };
            Ok(Response::with(Status::Success, session_json))
        },
        None => Ok(Response::with(Status::NotFound, "Not Found".to_owned())),
    }
}

/// What a login answers for each outcome of the authentication: `200` with
/// the session and its login cookie where a session was issued, `403` where
/// the store turned the credentials down, and `500` for any other error of
/// the store.
pub open spec fn answered(outcome: Result<UserSession>, template: CookieModel) -> ResponseModel {
    match outcome {
        Ok(session) => login_response(session@, template),
        Err(AppError::InvalidUsernameOrPassword) => forbidden_response(),
        Err(_) => failure_response(),
    }
}

/// Answers a login from what the store returned for the credentials.
pub fn login_answer(outcome: Result<UserSession>, config: &Config) -> (answer: Result<Response>)
    ensures
        answer is Ok,
        answer->Ok_0@ == answered(outcome, config@),
{
    match outcome {
        Ok(session) => {
            let session_json = match serialize_session(&session) {
                Ok(text) => text,
                Err(e) => { return Err(e); },
            };
            let mut response = Response::with(Status::Success, session_json);
            Login::new(config, Some(session)).cookie().modify(&mut response);
            Ok(response)
        },
        Err(AppError::InvalidUsernameOrPassword) => Ok(
            Response::with(Status::Forbidden, "invalid username or password".to_owned()),
        ),
        _ => Ok(
            Response::with(
                Status::InternalServerError,
                "post session not implemented".to_owned(),
            ),
        ),
    }
}

/// What a login with well-formed credentials answers and does.
///
/// There is always an answer. A `200` answer means that the credentials
/// were admitted: it carries the session issued to that user and the login
/// cookie with the session's id, and the session is stored under that id. A
/// `403` answer stores nothing, and a reliable store gives it exactly for
/// credentials it does not admit. A `500` answer stores nothing and comes
/// from an unreliable store only.
pub open spec fn login_outcome(
    users: Map<Seq<char>, UserModel>,
    reliable: bool,
    creds: CredentialsModel,
    template: CookieModel,
    before: Map<Seq<char>, SessionModel>,
    outcome: Result<Response>,
    after: Map<Seq<char>, SessionModel>,
) -> bool {
    &&& outcome matches Ok(response)
    &&& match response@.status {
        Status::Success => {
            &&& admitted(users, creds) matches Some(user)
            &&& response@.cookies.len() == 1
            &&& response@.cookies[0].value.len() > 0
            &&& response@ == login_response(issued(user, response@.cookies[0].value), template)
            &&& after == before.insert(
                response@.cookies[0].value,
                issued(user, response@.cookies[0].value),
            )
        },
        Status::Forbidden => {
            &&& response@ == forbidden_response()
            &&& after == before
            &&& reliable ==> admitted(users, creds) is None
        },
        _ => {
            &&& response@ == failure_response()
            &&& after == before
            &&& !reliable
        },
    }
}

/// `POST /session`: logs in with the credentials in the body.
pub fn post_session<S: Sessions>(sc: &mut SessionController<S>, req: &Request) -> (answer: Result<
    Response,
>)
    ensures
        final(sc).manager() == old(sc).manager(),
        final(sc).store().reliable() == old(sc).store().reliable(),
        final(sc).store().users() == old(sc).store().users(),
        match decoded_credentials(object_of(req@.body)) {
            None => {
                &&& answer is Err
                &&& answer->Err_0 == AppError::JsonDecoderError
                &&& final(sc).store().sessions() == old(sc).store().sessions()
            },
            Some(creds) => login_outcome(
                old(sc).store().users(),
                old(sc).store().reliable(),
                creds,
                old(sc).manager().template(),
                old(sc).store().sessions(),
                answer,
                final(sc).store().sessions(),
            ),
        },
{
    let creds = match parse_credentials(req) {
        Ok(creds) => creds,
        Err(e) => { return Err(e); },
    };
    let outcome = sc.sessions.authenticate(&creds);
    login_answer(outcome, sc.login_manager.config())
}

/// What a logout may answer and do: `200` whether or not there was a session
/// to end, with the session that the request names gone from the store.
pub open spec fn logout(
    req: RequestModel,
    reliable: bool,
    before: Map<Seq<char>, SessionModel>,
    answer: Result<Response>,
    after: Map<Seq<char>, SessionModel>,
) -> bool {
    match requested_id(req) {
        Err(e) => answer is Err && answer->Err_0 == e && after == before,
        Ok(None) => answer is Ok && answer->Ok_0@ == logout_response() && after == before,
        Ok(Some(id)) => match answer {
            Ok(response) => response@ == logout_response() && after == before.remove(id),
            Err(_) => !reliable && after == before,
        },
    }
}

/// Answers a logout from what clearing the session reported: `200` whether
/// a session was cleared or not, and the error as it is where clearing
/// failed.
pub fn logout_answer(cleared: Result<bool>) -> (answer: Result<Response>)
    ensures
        match cleared {
            Ok(_) => answer is Ok && answer->Ok_0@ == logout_response(),
            Err(e) => answer is Err && answer->Err_0 == e,
        },
{
    match cleared {
        Ok(_) => Ok(Response::with(Status::Success, "not implemented".to_owned())),
        Err(e) => Err(e),
    }
}

/// `DELETE /session`: logs out. The answer is the same whether or not there
/// was a session to end.
pub fn delete_session<S: Sessions>(sc: &mut SessionController<S>, req: &Request) -> (answer:
    Result<Response>)
    ensures
        final(sc).manager() == old(sc).manager(),
        final(sc).store().reliable() == old(sc).store().reliable(),
        final(sc).store().users() == old(sc).store().users(),
        logout(
            req@,
            old(sc).store().reliable(),
            old(sc).store().sessions(),
            answer,
            final(sc).store().sessions(),
        ),
{
    let cleared = sc.clear_session(req);
    logout_answer(cleared)
}

} // verus!
