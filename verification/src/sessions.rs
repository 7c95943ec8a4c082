//! Credentials, sessions, and the store that authenticates the one and keeps
//! the other.

use crate::keyed::{
    lemma_table_absent, lemma_table_at, lemma_table_push, lemma_table_remove, lemma_table_update,
    table,
};
use crate::login::LoginSession;
use crate::pipeline::Request;
use crate::result::{AppError, Result};
use crate::text::same_text;
use crate::token::{is_session_id, new_session_id};
use crate::users::{User, UserModel, UserRepo};
use vstd::prelude::*;

verus! {

/// What a login attempt says.
pub struct CredentialsModel {
    pub username: Seq<char>,
    pub password: Seq<char>,
}

/// Username and password of one login attempt. Never stored.
#[derive(Debug, PartialEq, Eq)]
pub struct Credentials {
    username: String,
    password: String,
}

impl View for Credentials {
    type V = CredentialsModel;

    closed spec fn view(&self) -> CredentialsModel {
        CredentialsModel { username: self.username@, password: self.password@ }
    }
}

impl Clone for Credentials {
    fn clone(&self) -> (copy: Credentials)
        ensures
            copy == *self,
    {
        Credentials { username: self.username.clone(), password: self.password.clone() }
    }
}

impl Credentials {
    pub fn new(username: String, password: String) -> (creds: Credentials)
        ensures
            creds@ == (CredentialsModel { username: username@, password: password@ }),
    {
        Credentials { username: username, password: password }
    }

    pub fn username(&self) -> (username: &str)
        ensures
            username@ == self@.username,
    {
        self.username.as_str()
    }

    pub fn password(&self) -> (password: &str)
        ensures
            password@ == self@.password,
    {
        self.password.as_str()
    }
}

/// What a session says.
pub struct SessionModel {
    pub username: Seq<char>,
    pub user_id: Seq<char>,
    pub session_id: Seq<char>,
    pub authenticated: bool,
}

/// The server's record of a login, keyed by an opaque id.
#[derive(Debug, PartialEq, Eq)]
pub struct UserSession {
    username: String,
    user_id: String,
    session_id: String,
    authenticated: bool,
}

impl View for UserSession {
    type V = SessionModel;

    closed spec fn view(&self) -> SessionModel {
        SessionModel {
            username: self.username@,
            user_id: self.user_id@,
            session_id: self.session_id@,
            authenticated: self.authenticated,
        }
    }
}

impl Clone for UserSession {
    fn clone(&self) -> (copy: UserSession)
        ensures
            copy == *self,
    {
        UserSession {
            username: self.username.clone(),
            user_id: self.user_id.clone(),
            session_id: self.session_id.clone(),
            authenticated: self.authenticated,
        }
    }
}

/// What an optional session says.
pub open spec fn session_view(session: Option<UserSession>) -> Option<SessionModel> {
    match session {
        Some(s) => Some(s@),
        None => None,
    }
}

impl UserSession {
    /// A session that is not yet authenticated.
    pub fn new(user_id: String, username: String, session_id: String) -> (session: UserSession)
        ensures
            session@ == (SessionModel {
                username: username@,
                user_id: user_id@,
                session_id: session_id@,
                authenticated: false,
            }),
    {
        UserSession {
            username: username,
            user_id: user_id,
            session_id: session_id,
            authenticated: false,
        }
    }

    pub fn username(&self) -> (username: &str)
        ensures
            username@ == self@.username,
    {
        self.username.as_str()
    }

    pub fn user_id(&self) -> (user_id: &str)
        ensures
            user_id@ == self@.user_id,
    {
        self.user_id.as_str()
    }

    pub fn session_id(&self) -> (session_id: &str)
        ensures
            session_id@ == self@.session_id,
    {
        self.session_id.as_str()
    }

    pub fn authenticated(&self) -> (authenticated: bool)
        ensures
            authenticated == self@.authenticated,
    {
        self.authenticated
    }

    /// Sets or clears the mark of a session that came out of a successful
    /// authentication.
    pub fn set_authenticated(&mut self, authenticated: bool)
        ensures
            final(self)@ == (SessionModel { authenticated: authenticated, ..old(self)@ }),
    {
        self.authenticated = authenticated;
    }

    /// The session that the controller attached to `req`. A request that
    /// never passed the controller has none attached, which is an error of
    /// the pipeline and not the same as an attached `None`.
    pub fn eval(req: &Request) -> (attached: Result<Option<UserSession>>)
        ensures
            match req@.session {
                Some(session) => attached is Ok && session_view(attached->Ok_0) == session,
                None => attached == Err::<Option<UserSession>, AppError>(
                    AppError::NoSessionLoaded,
                ),
            },
    {
        match req.session() {
            Some(session) => Ok(session.clone()),
            None => Err(AppError::NoSessionLoaded),
        }
    }
}

impl LoginSession for UserSession {
    open spec fn id(&self) -> Seq<char> {
        self@.session_id
    }

    fn get_id(&self) -> (id: String) {
        self.session_id.clone()
    }

    proof fn lemma_clone_keeps_id(&self, copy: &Self) {
    }
}

/// The user whose record matches the credentials: the record stored under
/// the username, provided its password is the one given.
pub open spec fn admitted(users: Map<Seq<char>, UserModel>, creds: CredentialsModel) -> Option<
    UserModel,
> {
    if users.contains_key(creds.username) && users[creds.username].password == creds.password {
        Some(users[creds.username])
    } else {
        None
    }
}

/// The session minted for `user` under `session_id`.
pub open spec fn issued(user: UserModel, session_id: Seq<char>) -> SessionModel {
    SessionModel {
        username: user.username,
        user_id: user.id,
        session_id: session_id,
        authenticated: true,
    }
}

/// The session stored under `session_id`, if there is one.
pub open spec fn session_of(sessions: Map<Seq<char>, SessionModel>, session_id: Seq<char>)
    -> Option<SessionModel> {
    if sessions.contains_key(session_id) {
        Some(sessions[session_id])
    } else {
        None
    }
}

/// What an authentication may report and do. On success the credentials were
/// admitted, the session is the one issued to that user, in that user's
/// name, under a non-empty id, and it is stored under that id. On failure nothing is stored; a
/// reliable store fails only on credentials it does not admit, and then with
/// `InvalidUsernameOrPassword` whether the name or the password was wrong.
pub open spec fn authentication(
    users: Map<Seq<char>, UserModel>,
    reliable: bool,
    creds: CredentialsModel,
    before: Map<Seq<char>, SessionModel>,
    outcome: Result<UserSession>,
    after: Map<Seq<char>, SessionModel>,
) -> bool {
    match outcome {
        Ok(session) => {
            &&& admitted(users, creds) matches Some(user)
            &&& session@ == issued(user, session@.session_id)
            &&& session@.username == creds.username
            &&& session@.session_id.len() > 0
            &&& after == before.insert(session@.session_id, session@)
        },
        Err(e) => {
            &&& after == before
            &&& reliable ==> admitted(users, creds) is None && e
                == AppError::InvalidUsernameOrPassword
        },
    }
}

/// What a lookup may report: a reliable store answers, and an answer is the
/// session stored under the id, or `None` where there is none.
pub open spec fn lookup_outcome(
    reliable: bool,
    sessions: Map<Seq<char>, SessionModel>,
    session_id: Seq<char>,
    found: Result<Option<UserSession>>,
) -> bool {
    match found {
        Ok(session) => session_view(session) == session_of(sessions, session_id),
        Err(_) => !reliable,
    }
}

/// What a removal may report and do: a reliable store answers; the answer
/// is whether a session was stored under the id, and that session is gone
/// while every other stays. A failed removal changes nothing.
pub open spec fn removal(
    reliable: bool,
    before: Map<Seq<char>, SessionModel>,
    session_id: Seq<char>,
    removed: Result<bool>,
    after: Map<Seq<char>, SessionModel>,
) -> bool {
    match removed {
        Ok(existed) => existed == before.contains_key(session_id) && after == before.remove(
            session_id,
        ),
        Err(_) => !reliable && after == before,
    }
}

/// A store of sessions that authenticates against a set of users.
///
/// `sessions` is what the store holds, by session id, and `users` the records
/// it checks credentials against. Every session is held under its own id,
/// which is not empty, and is authenticated: each operation says so of the
/// store as it leaves it. A store whose backend cannot fail is `reliable`.
/// An operation that returns an error has changed nothing.
pub trait Sessions {
    spec fn sessions(&self) -> Map<Seq<char>, SessionModel>;

    spec fn users(&self) -> Map<Seq<char>, UserModel>;

    spec fn reliable(&self) -> bool;

    /// Checks the credentials and, where they are right, mints and stores a
    /// session under a fresh id.
    fn authenticate(&mut self, creds: &Credentials) -> (outcome: Result<UserSession>)
        ensures
            final(self).reliable() == old(self).reliable(),
            final(self).users() == old(self).users(),
            authentication(
                old(self).users(),
                old(self).reliable(),
                creds@,
                old(self).sessions(),
                outcome,
                final(self).sessions(),
            ),
            well_keyed(final(self).sessions()),
    ;

    /// A copy of the session stored under `session_id`. An unknown id is
    /// `Ok(None)`, never an error.
    fn lookup(&self, session_id: &str) -> (found: Result<Option<UserSession>>)
        ensures
            lookup_outcome(self.reliable(), self.sessions(), session_id@, found),
            well_keyed(self.sessions()),
    ;

    /// Deletes the session under `session_id`; `true` exactly when there was
    /// one.
    fn remove(&mut self, session_id: &str) -> (removed: Result<bool>)
        ensures
            final(self).reliable() == old(self).reliable(),
            final(self).users() == old(self).users(),
            removal(
                old(self).reliable(),
                old(self).sessions(),
                session_id@,
                removed,
                final(self).sessions(),
            ),
            well_keyed(final(self).sessions()),
    ;
}

/// What `find_user` found, judged against the credentials: the user when the
/// record exists and the password matches exactly, `InvalidUsernameOrPassword`
/// when either is not so, and the repository's own error unchanged.
pub open spec fn judged(found: Result<Option<User>>, creds: CredentialsModel) -> Result<
    UserModel,
> {
    match found {
        Ok(Some(user)) => if user@.password == creds.password {
            Ok(user@)
        } else {
            Err(AppError::InvalidUsernameOrPassword)
        },
        Ok(None) => Err(AppError::InvalidUsernameOrPassword),
        Err(e) => Err(e),
    }
}

/// Decides a login attempt from what the repository returned for the
/// username.
pub fn check_credentials(found: Result<Option<User>>, creds: &Credentials) -> (verdict: Result<
    User,
>)
    ensures
        match verdict {
            Ok(user) => judged(found, creds@) == Ok::<UserModel, AppError>(user@),
            Err(e) => judged(found, creds@) == Err::<UserModel, AppError>(e),
        },
{
    match found {
        Ok(Some(user)) => {
            if same_text(user.password(), creds.password()) {
                Ok(user)
            } else {
                Err(AppError::InvalidUsernameOrPassword)
            }
        },
        Ok(None) => Err(AppError::InvalidUsernameOrPassword),
        Err(e) => Err(e),
    }
}

/// The ids of the sessions, in order.
spec fn ids(records: Seq<UserSession>) -> Seq<Seq<char>> {
    Seq::new(records.len(), |i: int| records[i]@.session_id)
}

/// What the sessions say, in order.
spec fn session_models(records: Seq<UserSession>) -> Seq<SessionModel> {
    Seq::new(records.len(), |i: int| records[i]@)
}

/// Every session is stored under its own id, which is not empty, and came
/// out of a successful authentication.
pub open spec fn well_keyed(sessions: Map<Seq<char>, SessionModel>) -> bool {
    forall|id: Seq<char>| #[trigger]
        sessions.contains_key(id) ==> sessions[id].session_id == id && id.len() > 0
            && sessions[id].authenticated
}

/// Sessions in memory, each under its own id.
struct SessionTable {
    records: Vec<UserSession>,
}

impl SessionTable {
    #[verifier::type_invariant]
    spec fn well_formed(self) -> bool {
        &&& ids(self.records@).no_duplicates()
        &&& forall|i: int|
            0 <= i < self.records@.len() ==> (#[trigger] session_models(
                self.records@,
            )[i]).session_id.len() > 0 && session_models(self.records@)[i].authenticated
    }

    closed spec fn view(&self) -> Map<Seq<char>, SessionModel> {
        table(ids(self.records@), session_models(self.records@))
    }

    fn new() -> (made: SessionTable)
        ensures
            made@ == Map::<Seq<char>, SessionModel>::empty(),
    {
        let made = SessionTable { records: Vec::new() };
        assert(made@ =~= Map::<Seq<char>, SessionModel>::empty());
        made
    }

    /// The position of the session under `session_id`, if there is one.
    fn position(&self, session_id: &str) -> (at: Option<usize>)
        ensures
            match at {
                Some(i) => i < self.records@.len() && ids(self.records@)[i as int]
                    == session_id@,
                None => !self@.contains_key(session_id@),
            },
    {
        let mut i: usize = 0;
        while i < self.records.len()
            invariant
                i <= self.records@.len(),
                forall|j: int| 0 <= j < i ==> ids(self.records@)[j] != session_id@,
            decreases self.records@.len() - i,
        {
            if same_text(self.records[i].session_id.as_str(), session_id) {
                return Some(i);
            }
            i += 1;
        }
        proof {
            lemma_table_absent(ids(self.records@), session_models(self.records@), session_id@);
        }
        None
    }

    /// A copy of the session under `session_id`.
    fn get(&self, session_id: &str) -> (found: Option<UserSession>)
        ensures
            session_view(found) == session_of(self@, session_id@),
            well_keyed(self@),
    {
        proof {
            use_type_invariant(self);
            self.lemma_well_keyed();
        }
        match self.position(session_id) {
            Some(i) => {
                proof {
                    lemma_table_at(ids(self.records@), session_models(self.records@), i as int);
                }
                Some(self.records[i].clone())
            },
            None => None,
        }
    }

    /// Stores `session` under its id. A session already stored under that id
    /// is replaced without notice.
    fn insert(&mut self, session: UserSession)
        requires
            session@.session_id.len() > 0,
            session@.authenticated,
        ensures
            final(self)@ == old(self)@.insert(session@.session_id, session@),
            well_keyed(final(self)@),
    {
        proof {
            use_type_invariant(&*self);
        }
        let at = self.position(session.session_id.as_str());
        let mut records: Vec<UserSession> = Vec::new();
        std::mem::swap(&mut records, &mut self.records);
        let ghost before = records@;
        match at {
            Some(i) => {
                proof {
                    lemma_table_update(ids(before), session_models(before), i as int, session@);
                    assert(ids(before.update(i as int, session)) =~= ids(before));
                    assert(session_models(before.update(i as int, session)) =~= session_models(
                        before,
                    ).update(i as int, session@));
                }
                records.set(i, session);
            },
            None => {
                proof {
                    lemma_table_push(
                        ids(before),
                        session_models(before),
                        session@.session_id,
                        session@,
                    );
                    assert(ids(before.push(session)) =~= ids(before).push(session@.session_id));
                    assert(session_models(before.push(session)) =~= session_models(before).push(
                        session@,
                    ));
                }
                records.push(session);
            },
        }
        self.records = records;
        proof {
            use_type_invariant(&*self);
            self.lemma_well_keyed();
        }
    }

    /// Deletes the session under `session_id`; `true` exactly when there was
    /// one.
    fn remove(&mut self, session_id: &str) -> (existed: bool)
        ensures
            existed == old(self)@.contains_key(session_id@),
            final(self)@ == old(self)@.remove(session_id@),
            well_keyed(final(self)@),
    {
        proof {
            use_type_invariant(&*self);
        }
        let existed = match self.position(session_id) {
            Some(i) => {
                let mut records: Vec<UserSession> = Vec::new();
                std::mem::swap(&mut records, &mut self.records);
                proof {
                    lemma_table_remove(ids(records@), session_models(records@), i as int);
                    assert(ids(records@.remove(i as int)) =~= ids(records@).remove(i as int));
                    assert(session_models(records@.remove(i as int)) =~= session_models(
                        records@,
                    ).remove(i as int));
                }
                records.remove(i);
                self.records = records;
                true
            },
            None => {
                assert(self@.remove(session_id@) =~= self@);
                false
            },
        };
        proof {
            use_type_invariant(&*self);
            self.lemma_well_keyed();
        }
        existed
    }

    /// Each session is kept under its own id, which is not empty, and is
    /// authenticated.
    proof fn lemma_well_keyed(&self)
        requires
            self.well_formed(),
        ensures
            well_keyed(self@),
    {
        assert forall|id: Seq<char>| #[trigger] self@.contains_key(id) implies self@[id].session_id
            == id && id.len() > 0 && self@[id].authenticated by {
            let p = ids(self.records@).index_of(id);
            lemma_table_at(ids(self.records@), session_models(self.records@), p);
            assert(session_models(self.records@)[p].session_id.len() > 0);
        }
    }
}

/// A session store that keeps its sessions in memory and authenticates
/// against a user repository.
pub struct InMemorySessions<R: UserRepo> {
    users: R,
    sessions: SessionTable,
}

impl<R: UserRepo> InMemorySessions<R> {
    /// An empty store over `users`.
    pub fn new(users: R) -> (store: InMemorySessions<R>)
        ensures
            store.sessions() == Map::<Seq<char>, SessionModel>::empty(),
            store.users() == users.users(),
            store.reliable() == users.reliable(),
            well_keyed(store.sessions()),
    {
        InMemorySessions { users: users, sessions: SessionTable::new() }
    }

    /// The repository this store authenticates against.
    pub fn user_repo(&self) -> (repo: &R)
        ensures
            repo.users() == self.users(),
            repo.reliable() == self.reliable(),
    {
        &self.users
    }

    /// The repository, to add and remove users. Whatever is done to the
    /// users, the sessions stay as they are: removing a user ends none of
    /// that user's sessions.
    pub fn user_repo_mut(&mut self) -> (repo: &mut R)
        ensures
            repo.users() == old(self).users(),
            repo.reliable() == old(self).reliable(),
            final(self).users() == final(repo).users(),
            final(self).reliable() == final(repo).reliable(),
            final(self).sessions() == old(self).sessions(),
    {
        &mut self.users
    }

    /// A session for the user under a freshly drawn id, not yet
    /// authenticated.
    fn new_session(&self, user_id: &str, username: &str) -> (session: UserSession)
        ensures
            session@.user_id == user_id@,
            session@.username == username@,
            !session@.authenticated,
            is_session_id(session@.session_id),
            session@.session_id.len() == 24,
    {
        UserSession::new(user_id.to_owned(), username.to_owned(), new_session_id())
    }
}

impl<R: UserRepo> Sessions for InMemorySessions<R> {
    closed spec fn sessions(&self) -> Map<Seq<char>, SessionModel> {
        self.sessions@
    }

    closed spec fn users(&self) -> Map<Seq<char>, UserModel> {
        self.users.users()
    }

    /// The sessions are in memory, so the store is as reliable as its
    /// repository.
    closed spec fn reliable(&self) -> bool {
        self.users.reliable()
    }

    fn authenticate(&mut self, creds: &Credentials) -> (outcome: Result<UserSession>)
        ensures
            outcome matches Ok(session) ==> is_session_id(session@.session_id),
            outcome matches Ok(session) ==> session@.session_id.len() == 24,
    {
        let found = self.users.find_user(creds.username());
        match check_credentials(found, creds) {
            Ok(user) => {
                let mut session = self.new_session(user.id(), user.username());
                session.set_authenticated(true);
                self.sessions.insert(session.clone());
                Ok(session)
            },
            Err(e) => {
                proof {
                    use_type_invariant(&self.sessions);
                    self.sessions.lemma_well_keyed();
                }
                Err(e)
            },
        }
    }

    fn lookup(&self, session_id: &str) -> (found: Result<Option<UserSession>>)
        ensures
            found is Ok,
    {
        Ok(self.sessions.get(session_id))
    }

    fn remove(&mut self, session_id: &str) -> (removed: Result<bool>)
        ensures
            removed is Ok,
    {
        Ok(self.sessions.remove(session_id))
    }
}

} // verus!
