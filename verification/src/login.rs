//! Login configuration: the cookie template, the manager that owns the
//! signing key, and the modifier that puts the login cookie on a response.

use crate::pipeline::Response;
use vstd::prelude::*;

verus! {

/// What a cookie says.
pub struct CookieModel {
    pub name: Seq<char>,
    pub value: Seq<char>,
    pub path: Option<Seq<char>>,
    pub secure: bool,
    pub httponly: bool,
}

/// A cookie as plain values: what the controller reads from a request and
/// what it asks the pipeline to sign and set on a response.
#[derive(Debug, PartialEq, Eq)]
pub struct Cookie {
    pub name: String,
    pub value: String,
    pub path: Option<String>,
    pub secure: bool,
    pub httponly: bool,
}

/// What an optional text says.
pub open spec fn text_view(text: Option<String>) -> Option<Seq<char>> {
    match text {
        Some(t) => Some(t@),
        None => None,
    }
}

impl View for Cookie {
    type V = CookieModel;

    open spec fn view(&self) -> CookieModel {
        CookieModel {
            name: self.name@,
            value: self.value@,
            path: text_view(self.path),
            secure: self.secure,
            httponly: self.httponly,
        }
    }
}

impl Clone for Cookie {
    fn clone(&self) -> (copy: Cookie)
        ensures
            copy@ == self@,
    {
        let path = match &self.path {
            Some(p) => Some(p.clone()),
            None => None,
        };
        Cookie {
            name: self.name.clone(),
            value: self.value.clone(),
            path: path,
            secure: self.secure,
            httponly: self.httponly,
        }
    }
}

/// A cookie with the given name and value and nothing else set.
pub open spec fn plain_cookie(name: Seq<char>, value: Seq<char>) -> CookieModel {
    CookieModel { name: name, value: value, path: None, secure: false, httponly: false }
}

/// Calls `Cookie::new` of the `cookie` crate and copies out the fields this
/// library reads. The new cookie carries the name and the value it was given,
/// no path, and neither the `secure` nor the `httponly` flag.
#[verifier::external_body]
fn new_cookie(name: String, value: String) -> (made: Cookie)
    ensures
        made@ == plain_cookie(name@, value@),
{
    let c = cookie::Cookie::new(name, value);
    Cookie { name: c.name, value: c.value, path: c.path, secure: c.secure, httponly: c.httponly }
}

impl Cookie {
    /// A cookie with the given name and value, without path or flags.
    pub fn new(name: String, value: String) -> (made: Cookie)
        ensures
            made@ == plain_cookie(name@, value@),
    {
        new_cookie(name, value)
    }
}

/// The template of the login cookie: named `logged_in_user`, empty, for the
/// whole site, hidden from scripts.
pub open spec fn default_cookie() -> CookieModel {
    CookieModel {
        name: "logged_in_user"@,
        value: Seq::empty(),
        path: Some("/"@),
        secure: false,
        httponly: true,
    }
}

/// Configuration shared by the signing layer and the controller.
#[derive(Debug, PartialEq, Eq)]
pub struct Config {
    /// The default values that session cookies are made from. Override
    /// `httponly` or `secure` as needed.
    pub cookie_base: Cookie,
}

impl View for Config {
    type V = CookieModel;

    open spec fn view(&self) -> CookieModel {
        self.cookie_base@
    }
}

impl Clone for Config {
    fn clone(&self) -> (copy: Config)
        ensures
            copy@ == self@,
    {
        Config { cookie_base: self.cookie_base.clone() }
    }
}

impl Config {
    /// The configuration with default values.
    pub fn defaults() -> (config: Config)
        ensures
            config@ == default_cookie(),
    {
        let mut c = Cookie::new("logged_in_user".to_owned(), "".to_owned());
        c.httponly = true;
        c.path = Some("/".to_owned());
        proof {
            reveal_strlit("");
            assert(c.value@ =~= Seq::<char>::empty());
        }
        Config { cookie_base: c }
    }
}

/// Owner of the signing key and of the login configuration. The key is
/// secret: it cannot be read through a reference and is not printed.
pub struct LoginManager {
    signing_key: Vec<u8>,
    /// Configuration for this manager.
    pub config: Config,
}

impl Clone for LoginManager {
    fn clone(&self) -> (copy: LoginManager)
        ensures
            copy.key() == self.key(),
            copy.template() == self.template(),
    {
        LoginManager { signing_key: self.signing_key.clone(), config: self.config.clone() }
    }
}

impl LoginManager {
    /// The bytes of the signing key.
    pub closed spec fn key(&self) -> Seq<u8> {
        self.signing_key@
    }

    /// The cookie template of the manager's configuration.
    pub closed spec fn template(&self) -> CookieModel {
        self.config@
    }

    /// A manager for the given signing key, with the default configuration.
    pub fn new(signing_key: Vec<u8>) -> (manager: LoginManager)
        ensures
            manager.key() == signing_key@,
            manager.template() == default_cookie(),
    {
        LoginManager { signing_key: signing_key, config: Config::defaults() }
    }

    /// The configuration of this manager.
    pub fn config(&self) -> (config: &Config)
        ensures
            config@ == self.template(),
    {
        &self.config
    }

    /// Takes the manager apart into the signing key and the configuration,
    /// for the layer that signs and verifies cookies.
    pub fn into_parts(self) -> (parts: (Vec<u8>, Config))
        ensures
            parts.0@ == self.key(),
            parts.1@ == self.template(),
    {
        (self.signing_key, self.config)
    }
}

/// A session as the login layer sees it: something with an id that can be
/// copied without changing the id.
pub trait LoginSession: Clone + Sized {
    spec fn id(&self) -> Seq<char>;

    fn get_id(&self) -> (id: String)
        ensures
            id@ == self.id(),
    ;

    proof fn lemma_clone_keeps_id(&self, copy: &Self)
        requires
            cloned(*self, *copy),
        ensures
            copy.id() == self.id(),
    ;
}

/// The id of an optional session.
pub open spec fn id_of<U: LoginSession>(session: Option<U>) -> Option<Seq<char>> {
    match session {
        Some(u) => Some(u.id()),
        None => None,
    }
}

/// The login cookie for a session id: the template with the id as its value,
/// or with an empty value where there is no session. Set on a response, the
/// empty value clears the cookie on the client.
pub open spec fn login_cookie(base: CookieModel, id: Option<Seq<char>>) -> CookieModel {
    CookieModel {
        value: match id {
            Some(v) => v,
            None => Seq::empty(),
        },
        ..base
    }
}

/// The outcome of resolving a request's session, with the configuration that
/// was in force.
#[derive(Debug)]
pub struct Login<U: LoginSession> {
    pub session: Option<U>,
    pub config: Config,
}

impl<U: LoginSession> Clone for Login<U> {
    fn clone(&self) -> (copy: Login<U>)
        ensures
            copy.config@ == self.config@,
            id_of(copy.session) == id_of(self.session),
    {
        let session = self.session.clone();
        proof {
            if self.session is Some {
                self.session.unwrap().lemma_clone_keeps_id(&session.unwrap());
            }
        }
        Login { session: session, config: self.config.clone() }
    }
}

impl<U: LoginSession> Login<U> {
    pub fn new(config: &Config, session: Option<U>) -> (login: Login<U>)
        ensures
            login.session == session,
            login.config@ == config@,
    {
        Login { session: session, config: config.clone() }
    }

    /// The modifier that sets this login's cookie on a response.
    pub fn cookie(&self) -> (modifier: LoginModifier<U>)
        ensures
            modifier.cookie() == login_cookie(self.config@, id_of(self.session)),
    {
        LoginModifier { login: (*self).clone() }
    }
}

/// Sets the login cookie on a response.
pub struct LoginModifier<U: LoginSession> {
    login: Login<U>,
}

impl<U: LoginSession> LoginModifier<U> {
    /// The cookie this modifier sets.
    pub closed spec fn cookie(&self) -> CookieModel {
        login_cookie(self.login.config@, id_of(self.login.session))
    }

    /// Makes the login cookie: a copy of the template whose value is the
    /// session's id, or empty where there is no session.
    pub fn into_cookie(self) -> (made: Cookie)
        ensures
            made@ == self.cookie(),
    {
        let mut x = self.login.config.cookie_base.clone();
        x.value = match self.login.session {
            Some(u) => u.get_id(),
            None => "".to_owned(),
        };
        proof {
            reveal_strlit("");
            assert(x.value@ =~= login_cookie(self.login.config@, id_of(self.login.session)).value);
        }
        x
    }

    /// Adds the login cookie to the cookies that `response` sets and leaves
    /// the rest of the response as it is.
    pub fn modify(self, response: &mut Response)
        ensures
            final(response)@ == old(response)@.with_cookie(self.cookie()),
    {
        response.set_cookie(self.into_cookie());
    }
}

} // verus!
