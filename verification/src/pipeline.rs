//! The request and the response as the surrounding pipeline hands them over:
//! plain values, with the cookie signatures already checked on the way in and
//! still to be made on the way out.

use crate::login::{Config, Cookie, CookieModel};
use crate::result::Status;
use crate::text::same_text;
use crate::sessions::{session_view, SessionModel, UserSession};
use vstd::prelude::*;

verus! {

/// What a sequence of cookies says, in order.
pub open spec fn cookie_views(cookies: Seq<Cookie>) -> Seq<CookieModel> {
    Seq::new(cookies.len(), |i: int| cookies[i]@)
}

/// The first cookie with the given name, if there is one.
pub open spec fn cookie_named(cookies: Seq<CookieModel>, name: Seq<char>) -> Option<CookieModel>
    decreases cookies.len(),
{
    if cookies.len() == 0 {
        None
    } else if cookies[0].name == name {
        Some(cookies[0])
    } else {
        cookie_named(cookies.drop_first(), name)
    }
}

/// What a request says.
pub struct RequestModel {
    /// The cookie template of the login configuration that the pipeline
    /// shares with every request, if it shares one.
    pub config: Option<CookieModel>,
    /// The cookies that came with the request and passed the signature check.
    pub cookies: Seq<CookieModel>,
    pub body: Seq<char>,
    /// The per-request session slot: `None` until the controller has filled
    /// it, then the session it resolved, which may itself be `None`.
    pub session: Option<Option<SessionModel>>,
}

/// An inbound request. A cookie whose signature did not verify is not among
/// `cookies`: to everything here it was never sent.
#[derive(Debug, PartialEq, Eq)]
pub struct Request {
    config: Option<Config>,
    cookies: Vec<Cookie>,
    body: String,
    session: Option<Option<UserSession>>,
}

/// What an optional configuration says.
pub open spec fn config_view(config: Option<Config>) -> Option<CookieModel> {
    match config {
        Some(c) => Some(c@),
        None => None,
    }
}

/// What a session slot says.
pub open spec fn slot_view(slot: Option<Option<UserSession>>) -> Option<Option<SessionModel>> {
    match slot {
        Some(session) => Some(session_view(session)),
        None => None,
    }
}

impl View for Request {
    type V = RequestModel;

    closed spec fn view(&self) -> RequestModel {
        RequestModel {
            config: config_view(self.config),
            cookies: cookie_views(self.cookies@),
            body: self.body@,
            session: slot_view(self.session),
        }
    }
}

impl Request {
    /// A request that has not passed the controller yet.
    pub fn new(config: Option<Config>, cookies: Vec<Cookie>, body: String) -> (req: Request)
        ensures
            req@ == (RequestModel {
                config: config_view(config),
                cookies: cookie_views(cookies@),
                body: body@,
                session: None,
            }),
    {
        Request { config: config, cookies: cookies, body: body, session: None }
    }

    /// The login configuration shared by the pipeline.
    pub fn config(&self) -> (config: Option<&Config>)
        ensures
            match config {
                Some(c) => self@.config == Some(c@),
                None => self@.config is None,
            },
    {
        self.config.as_ref()
    }

    /// The first cookie named `name`.
    pub fn get_cookie(&self, name: &str) -> (cookie: Option<&Cookie>)
        ensures
            match cookie {
                Some(c) => cookie_named(self@.cookies, name@) == Some(c@),
                None => cookie_named(self@.cookies, name@) is None,
            },
    {
        let ghost all = cookie_views(self.cookies@);
        let mut i: usize = 0;
        assert(all.skip(0) =~= all);
        while i < self.cookies.len()
            invariant
                i <= self.cookies@.len(),
                all == cookie_views(self.cookies@),
                cookie_named(all, name@) == cookie_named(all.skip(i as int), name@),
            decreases self.cookies@.len() - i,
        {
            if same_text(self.cookies[i].name.as_str(), name) {
                return Some(&self.cookies[i]);
            }
            assert(all.skip(i as int).drop_first() =~= all.skip(i + 1));
            i += 1;
        }
        None
    }

    pub fn body(&self) -> (body: &str)
        ensures
            body@ == self@.body,
    {
        self.body.as_str()
    }

    /// What the session slot holds, if it was filled.
    pub fn session(&self) -> (slot: Option<&Option<UserSession>>)
        ensures
            match slot {
                Some(session) => self@.session == Some(session_view(*session)),
                None => self@.session is None,
            },
    {
        self.session.as_ref()
    }

    /// Fills the session slot.
    pub fn set_session(&mut self, session: Option<UserSession>)
        ensures
            final(self)@ == (RequestModel { session: Some(session_view(session)), ..old(self)@ }),
    {
        self.session = Some(session);
    }
}

/// What a response says.
pub struct ResponseModel {
    pub status: Status,
    pub body: Seq<char>,
    pub cookies: Seq<CookieModel>,
}

impl ResponseModel {
    /// The same response with one more cookie to set.
    pub open spec fn with_cookie(self, cookie: CookieModel) -> ResponseModel {
        ResponseModel { cookies: self.cookies.push(cookie), ..self }
    }
}

/// An outbound response: status, body text, and the cookies for the signing
/// layer to sign and set, in the order they were added.
#[derive(Debug, PartialEq, Eq)]
pub struct Response {
    pub status: Status,
    pub body: String,
    pub cookies: Vec<Cookie>,
}

impl View for Response {
    type V = ResponseModel;

    open spec fn view(&self) -> ResponseModel {
        ResponseModel {
            status: self.status,
            body: self.body@,
            cookies: cookie_views(self.cookies@),
        }
    }
}

impl Response {
    /// A response with the given status and body that sets no cookie.
    pub fn with(status: Status, body: String) -> (response: Response)
        ensures
            response@ == (ResponseModel { status: status, body: body@, cookies: Seq::empty() }),
    {
        let response = Response { status: status, body: body, cookies: Vec::new() };
        assert(cookie_views(response.cookies@) =~= Seq::<CookieModel>::empty());
        response
    }

    /// Adds a cookie for the signing layer to set.
    pub fn set_cookie(&mut self, cookie: Cookie)
        ensures
            final(self)@ == old(self)@.with_cookie(cookie@),
    {
        self.cookies.push(cookie);
        assert(cookie_views(self.cookies@) =~= cookie_views(old(self).cookies@).push(cookie@));
    }
}

} // verus!
