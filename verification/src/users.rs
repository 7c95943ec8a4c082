//! User records and the repository that holds them by username.

use crate::keyed::{
    lemma_table_absent, lemma_table_at, lemma_table_push, lemma_table_remove, table,
};
use crate::result::Result;
use crate::text::same_text;
use vstd::prelude::*;

verus! {

/// What a user record says.
pub struct UserModel {
    pub id: Seq<char>,
    pub username: Seq<char>,
    pub password: Seq<char>,
}

/// A user that may log in. The username is the key of the record.
#[derive(Debug, PartialEq, Eq)]
pub struct User {
    id: String,
    username: String,
    password: String,
}

impl View for User {
    type V = UserModel;

    closed spec fn view(&self) -> UserModel {
        UserModel { id: self.id@, username: self.username@, password: self.password@ }
    }
}

impl Clone for User {
    fn clone(&self) -> (copy: User)
        ensures
            copy == *self,
    {
        User {
            id: self.id.clone(),
            username: self.username.clone(),
            password: self.password.clone(),
        }
    }
}

impl User {
    pub fn new(id: String, username: String, password: String) -> (user: User)
        ensures
            user@ == (UserModel { id: id@, username: username@, password: password@ }),
    {
        User { id: id, username: username, password: password }
    }

    pub fn id(&self) -> (id: &str)
        ensures
            id@ == self@.id,
    {
        self.id.as_str()
    }

    pub fn username(&self) -> (username: &str)
        ensures
            username@ == self@.username,
    {
        self.username.as_str()
    }

    pub fn password(&self) -> (password: &str)
        ensures
            password@ == self@.password,
    {
        self.password.as_str()
    }
}

/// The record stored under `username`, if there is one.
pub open spec fn record_of(users: Map<Seq<char>, UserModel>, username: Seq<char>) -> Option<
    UserModel,
> {
    if users.contains_key(username) {
        Some(users[username])
    } else {
        None
    }
}

/// The records after `user` was offered: it is stored under its username
/// unless that name is taken, in which case nothing changes.
pub open spec fn enrolled(users: Map<Seq<char>, UserModel>, user: UserModel) -> Map<
    Seq<char>,
    UserModel,
> {
    if users.contains_key(user.username) {
        users
    } else {
        users.insert(user.username, user)
    }
}

/// What an optional record says.
pub open spec fn user_view(user: Option<User>) -> Option<UserModel> {
    match user {
        Some(u) => Some(u@),
        None => None,
    }
}

/// A store of user records keyed by username.
///
/// `users` is the content of the store. A repository whose backend cannot
/// fail is `reliable`: each of its operations then returns `Ok`. An operation
/// that returns an error has changed nothing.
pub trait UserRepo {
    spec fn users(&self) -> Map<Seq<char>, UserModel>;

    spec fn reliable(&self) -> bool;

    /// Exact-match lookup. An unknown name is `Ok(None)`, never an error.
    fn find_user(&self, username: &str) -> (found: Result<Option<User>>)
        ensures
            self.reliable() ==> found is Ok,
            found matches Ok(user) ==> user_view(user) == record_of(self.users(), username@),
            found matches Ok(Some(user)) ==> user@.username == username@,
    ;

    /// Stores `user` unless its username is taken; an existing record is
    /// neither overwritten nor reported.
    fn add_user(&mut self, user: User) -> (done: Result<()>)
        ensures
            final(self).reliable() == old(self).reliable(),
            old(self).reliable() ==> done is Ok,
            done is Ok ==> final(self).users() == enrolled(old(self).users(), user@),
            done is Err ==> final(self).users() == old(self).users(),
    ;

    /// Deletes the record under `username`; `true` exactly when there was one.
    fn remove_user(&mut self, username: &str) -> (removed: Result<bool>)
        ensures
            final(self).reliable() == old(self).reliable(),
            old(self).reliable() ==> removed is Ok,
            removed matches Ok(existed) ==> existed == old(self).users().contains_key(username@)
                && final(self).users() == old(self).users().remove(username@),
            removed is Err ==> final(self).users() == old(self).users(),
    ;
}

/// The usernames of the records, in order.
spec fn usernames(records: Seq<User>) -> Seq<Seq<char>> {
    Seq::new(records.len(), |i: int| records[i]@.username)
}

/// What the records say, in order.
spec fn models(records: Seq<User>) -> Seq<UserModel> {
    Seq::new(records.len(), |i: int| records[i]@)
}

/// A repository that keeps its records in memory.
pub struct InMemoryUserRepo {
    records: Vec<User>,
}

impl InMemoryUserRepo {
    #[verifier::type_invariant]
    spec fn well_formed(self) -> bool {
        usernames(self.records@).no_duplicates()
    }

    /// An empty repository.
    pub fn new() -> (repo: InMemoryUserRepo)
        ensures
            repo.users() == Map::<Seq<char>, UserModel>::empty(),
            repo.reliable(),
    {
        let repo = InMemoryUserRepo { records: Vec::new() };
        assert(repo.users() =~= Map::<Seq<char>, UserModel>::empty());
        repo
    }

    /// The position of the record under `username`, if there is one.
    fn position(&self, username: &str) -> (at: Option<usize>)
        ensures
            match at {
                Some(i) => i < self.records@.len() && usernames(self.records@)[i as int]
                    == username@,
                None => !self.users().contains_key(username@),
            },
    {
        let mut i: usize = 0;
        while i < self.records.len()
            invariant
                i <= self.records@.len(),
                forall|j: int| 0 <= j < i ==> usernames(self.records@)[j] != username@,
            decreases self.records@.len() - i,
        {
            if same_text(self.records[i].username.as_str(), username) {
                return Some(i);
            }
            i += 1;
        }
        proof {
            lemma_table_absent(usernames(self.records@), models(self.records@), username@);
        }
        None
    }
}

impl UserRepo for InMemoryUserRepo {
    closed spec fn users(&self) -> Map<Seq<char>, UserModel> {
        table(usernames(self.records@), models(self.records@))
    }

    /// Memory cannot fail.
    open spec fn reliable(&self) -> bool {
        true
    }

    fn find_user(&self, username: &str) -> (found: Result<Option<User>>) {
        proof {
            use_type_invariant(self);
        }
        match self.position(username) {
            Some(i) => {
                proof {
                    lemma_table_at(usernames(self.records@), models(self.records@), i as int);
                }
                Ok(Some(self.records[i].clone()))
            },
            None => Ok(None),
        }
    }

    fn add_user(&mut self, user: User) -> (done: Result<()>) {
        proof {
            use_type_invariant(&*self);
        }
        if self.position(user.username.as_str()).is_none() {
            let mut records: Vec<User> = Vec::new();
            std::mem::swap(&mut records, &mut self.records);
            proof {
                lemma_table_push(
                    usernames(records@),
                    models(records@),
                    user@.username,
                    user@,
                );
                assert(usernames(records@.push(user)) =~= usernames(records@).push(
                    user@.username,
                ));
                assert(models(records@.push(user)) =~= models(records@).push(user@));
            }
            records.push(user);
            self.records = records;
        }
        Ok(())
    }

    fn remove_user(&mut self, username: &str) -> (removed: Result<bool>) {
        proof {
            use_type_invariant(&*self);
        }
        match self.position(username) {
            Some(i) => {
                let mut records: Vec<User> = Vec::new();
                std::mem::swap(&mut records, &mut self.records);
                proof {
                    lemma_table_remove(usernames(records@), models(records@), i as int);
                    assert(usernames(records@.remove(i as int)) =~= usernames(records@).remove(
                        i as int,
                    ));
                    assert(models(records@.remove(i as int)) =~= models(records@).remove(
                        i as int,
                    ));
                }
                records.remove(i);
                self.records = records;
                Ok(true)
            },
            None => {
                assert(self.users().remove(username@) =~= self.users());
                Ok(false)
            },
        }
    }
}

} // verus!
