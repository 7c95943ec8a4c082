use rustc_serialize::json::Json;
use session_auth::login::{Config, Cookie, LoginManager};
use session_auth::pipeline::{Request, Response};
use session_auth::result::{AppError, Status};
use session_auth::routes::session::{
    delete_session, get_session, post_session, SessionController,
};
use session_auth::sessions::{InMemorySessions, Sessions, UserSession};
use session_auth::users::{InMemoryUserRepo, User, UserRepo};

type Controller = SessionController<InMemorySessions<InMemoryUserRepo>>;

fn seeded() -> Controller {
    let mut users = InMemoryUserRepo::new();
    users
        .add_user(User::new("1".to_owned(), "admin".to_owned(), "admin".to_owned()))
        .unwrap();
    SessionController::new(
        InMemorySessions::new(users),
        LoginManager::new(b"My secret key".to_vec()),
    )
}

fn post(sc: &mut Controller, body: &str) -> Result<Response, AppError> {
    let mut req = Request::new(Some(Config::defaults()), Vec::new(), body.to_owned());
    sc.before(&mut req).unwrap();
    post_session(sc, &req)
}

fn get(sc: &Controller, cookies: Vec<Cookie>) -> Result<Response, AppError> {
    let mut req = Request::new(Some(Config::defaults()), cookies, String::new());
    sc.before(&mut req)?;
    get_session(sc, &req)
}

fn delete(sc: &mut Controller, cookies: Vec<Cookie>) -> Result<Response, AppError> {
    let mut req = Request::new(Some(Config::defaults()), cookies, String::new());
    sc.before(&mut req)?;
    delete_session(sc, &req)
}

/// What the client sends back after a response: the cookies it was told to
/// set, by name and value.
fn returned(response: &Response) -> Vec<Cookie> {
    response
        .cookies
        .iter()
        .map(|c| Cookie::new(c.name.clone(), c.value.clone()))
        .collect()
}

fn session_id_in(body: &str) -> String {
    Json::from_str(body)
        .unwrap()
        .find("session_id")
        .unwrap()
        .as_string()
        .unwrap()
        .to_owned()
}

#[test]
fn login_whoami_logout() {
    let mut sc = seeded();

    let login = post(&mut sc, "{\"username\":\"admin\",\"password\":\"admin\"}").unwrap();
    assert_eq!(login.status, Status::Success);
    assert_eq!(login.status.code(), 200);
    assert!(login.body.contains("\"authenticated\":true"));
    assert!(login.body.contains("\"username\":\"admin\""));
    assert!(login.body.contains("\"user_id\":\"1\""));
    assert_eq!(login.cookies.len(), 1);
    assert_eq!(login.cookies[0].name, Config::defaults().cookie_base.name);
    assert_eq!(login.cookies[0].name, "logged_in_user");
    assert_eq!(login.cookies[0].path, Some("/".to_owned()));
    assert!(login.cookies[0].httponly);
    let id = session_id_in(&login.body);
    assert_eq!(id.len(), 24);
    assert_eq!(login.cookies[0].value, id);

    let whoami = get(&sc, returned(&login)).unwrap();
    assert_eq!(whoami.status, Status::Success);
    assert_eq!(session_id_in(&whoami.body), id);
    assert_eq!(whoami.body, login.body);
    assert!(whoami.cookies.is_empty());

    let logout = delete(&mut sc, returned(&login)).unwrap();
    assert_eq!(logout.status, Status::Success);
    assert_eq!(logout.status.code(), 200);
    assert!(logout.cookies.is_empty());
    assert_eq!(sc.sessions().lookup(&id), Ok(None));

    let stale = get(&sc, returned(&login)).unwrap();
    assert_eq!(stale.status, Status::NotFound);
    assert_eq!(stale.status.code(), 404);
    assert_eq!(stale.body, "Not Found");
}

#[test]
fn login_with_wrong_password_is_forbidden() {
    let mut sc = seeded();
    let answer = post(&mut sc, "{\"username\":\"admin\",\"password\":\"wrong\"}").unwrap();
    assert_eq!(answer.status, Status::Forbidden);
    assert_eq!(answer.status.code(), 403);
    assert!(answer.cookies.is_empty());
    assert_eq!(answer.body, "invalid username or password");
}

#[test]
fn login_refusals_do_not_tell_name_from_password() {
    let mut sc = seeded();
    let mistaken = post(&mut sc, "{\"username\":\"admin\",\"password\":\"wrong\"}").unwrap();
    let unknown = post(&mut sc, "{\"username\":\"nobody\",\"password\":\"admin\"}").unwrap();
    assert_eq!(mistaken, unknown);
    assert_eq!(unknown.status, Status::Forbidden);
}

#[test]
fn tampered_cookie_is_no_cookie() {
    let mut sc = seeded();
    let login = post(&mut sc, "{\"username\":\"admin\",\"password\":\"admin\"}").unwrap();
    assert_eq!(login.status, Status::Success);
    // The signing layer drops a cookie whose signature does not verify, so the
    // request reaches the controller without it.
    let tampered = get(&sc, Vec::new()).unwrap();
    let without = get(&seeded(), Vec::new()).unwrap();
    assert_eq!(tampered.status, Status::NotFound);
    assert_eq!(tampered, without);
    // The session itself is untouched.
    assert_eq!(get(&sc, returned(&login)).unwrap().status, Status::Success);
}

#[test]
fn whoami_with_unknown_or_empty_cookie_is_not_found() {
    let sc = seeded();
    for value in ["", "AAAAAAAAAAAAAAAAAAAAAA==", "garbage"] {
        let answer = get(
            &sc,
            vec![Cookie::new("logged_in_user".to_owned(), value.to_owned())],
        )
        .unwrap();
        assert_eq!(answer.status, Status::NotFound);
        assert_eq!(answer.body, "Not Found");
    }
}

#[test]
fn whoami_before_the_controller_ran_is_a_pipeline_error() {
    let sc = seeded();
    let req = Request::new(Some(Config::defaults()), Vec::new(), String::new());
    assert_eq!(get_session(&sc, &req), Err(AppError::NoSessionLoaded));
}

#[test]
fn whoami_answers_from_what_was_attached() {
    let sc = seeded();
    let mut session = UserSession::new("1".to_owned(), "admin".to_owned(), "abc".to_owned());
    session.set_authenticated(true);
    let mut req = Request::new(Some(Config::defaults()), Vec::new(), String::new());
    req.set_session(Some(session));
    let answer = get_session(&sc, &req).unwrap();
    assert_eq!(answer.status, Status::Success);
    assert_eq!(
        answer.body,
        "{\"username\":\"admin\",\"user_id\":\"1\",\"session_id\":\"abc\",\"authenticated\":true}"
    );
}

#[test]
fn login_with_a_malformed_body_fails_and_stores_nothing() {
    let mut sc = seeded();
    for body in ["", "admin", "{\"username\":\"admin\"}", "[\"admin\",\"admin\"]"] {
        assert_eq!(post(&mut sc, body), Err(AppError::JsonDecoderError));
    }
    let login = post(&mut sc, "{\"username\":\"admin\",\"password\":\"admin\"}").unwrap();
    assert_eq!(login.status, Status::Success);
}

#[test]
fn logout_without_session_is_ok() {
    let mut sc = seeded();
    let first = delete(&mut sc, Vec::new()).unwrap();
    let second = delete(&mut sc, Vec::new()).unwrap();
    assert_eq!(first.status, Status::Success);
    assert_eq!(first.body, "not implemented");
    assert_eq!(first, second);
    let stale = delete(
        &mut sc,
        vec![Cookie::new("logged_in_user".to_owned(), "stale".to_owned())],
    )
    .unwrap();
    assert_eq!(stale.status, Status::Success);
}

#[test]
fn logout_ends_only_the_named_session() {
    let mut sc = seeded();
    let a = post(&mut sc, "{\"username\":\"admin\",\"password\":\"admin\"}").unwrap();
    let b = post(&mut sc, "{\"username\":\"admin\",\"password\":\"admin\"}").unwrap();
    assert_ne!(a.cookies[0].value, b.cookies[0].value);
    delete(&mut sc, returned(&a)).unwrap();
    assert_eq!(get(&sc, returned(&a)).unwrap().status, Status::NotFound);
    let still = get(&sc, returned(&b)).unwrap();
    assert_eq!(still.status, Status::Success);
    assert_eq!(still.body, b.body);
}

#[test]
fn handlers_without_configuration_fail() {
    let mut sc = seeded();
    let login = post(&mut sc, "{\"username\":\"admin\",\"password\":\"admin\"}").unwrap();
    let req = Request::new(None, returned(&login), String::new());
    assert_eq!(delete_session(&mut sc, &req), Err(AppError::NoSessionLoaded));
    assert_eq!(get(&sc, returned(&login)).unwrap().status, Status::Success);
}

#[test]
fn login_does_not_need_the_request_configuration() {
    let mut sc = seeded();
    let req = Request::new(
        None,
        Vec::new(),
        "{\"username\":\"admin\",\"password\":\"admin\"}".to_owned(),
    );
    let answer = post_session(&mut sc, &req).unwrap();
    assert_eq!(answer.status, Status::Success);
    assert_eq!(answer.cookies[0].name, "logged_in_user");
}

#[test]
fn response_with_sets_no_cookie() {
    let r = Response::with(Status::NotFound, "Not Found".to_owned());
    assert_eq!(r.status, Status::NotFound);
    assert_eq!(r.body, "Not Found");
    assert!(r.cookies.is_empty());
}
