//! User accounts and sessions: the directory of users, the resolution of a
//! session token to an identity, and the two ways to obtain a session, by
//! logging in with a known email and by signing up with the invite code.

use vstd::prelude::*;
use vstd::string::*;
use crate::error::AccessError;
use crate::ident::{token_user, uuid_text, UserId};
use crate::text::{optional_string, optional_text, same_text};

verus! {

/// The cookie that carries the session token.
pub const SESSION_COOKIE: &'static str = "user_id";

/// Where a visitor is sent after login or signup, unless the request says
/// where it came from.
pub const HOME: &'static str = "/";

/// The message of the failure to add a user whose email or identifier is
/// taken.
pub const DUPLICATE_USER: &'static str = "a user with this email or identifier already exists";

/// A user account.
#[derive(Debug, PartialEq, Eq)]
pub struct User {
    pub id: UserId,
    pub email: String,
    pub name: String,
}

/// What a user account holds, as plain values.
pub struct UserView {
    pub id: UserId,
    pub email: Seq<char>,
    pub name: Seq<char>,
}

impl View for User {
    type V = UserView;

    open spec fn view(&self) -> UserView {
        UserView { id: self.id, email: self.email@, name: self.name@ }
    }
}

impl Clone for User {
    fn clone(&self) -> (r: User)
        ensures
            r == *self,
    {
        User { id: self.id, email: self.email.clone(), name: self.name.clone() }
    }
}

/// The views of a sequence of users.
pub open spec fn user_views(users: Seq<User>) -> Seq<UserView> {
    Seq::new(users.len(), |i: int| users[i]@)
}

/// No two users share an identifier, and no two share an email.
pub open spec fn distinct_users(users: Seq<UserView>) -> bool {
    &&& forall|i: int, j: int|
        #![trigger users[i], users[j]]
        0 <= i < j < users.len() ==> users[i].id != users[j].id
    &&& forall|i: int, j: int|
        #![trigger users[i], users[j]]
        0 <= i < j < users.len() ==> users[i].email != users[j].email
}

/// Whether a user with this identifier exists.
pub open spec fn has_user(users: Seq<UserView>, id: UserId) -> bool {
    exists|i: int| 0 <= i < users.len() && (#[trigger] users[i]).id == id
}

/// The user with this identifier, where there is one.
pub open spec fn user_with_id(users: Seq<UserView>, id: UserId) -> UserView {
    users[choose|i: int| 0 <= i < users.len() && (#[trigger] users[i]).id == id]
}

/// Whether a user with this email exists.
pub open spec fn has_email(users: Seq<UserView>, email: Seq<char>) -> bool {
    exists|i: int| 0 <= i < users.len() && (#[trigger] users[i]).email == email
}

/// The user with this email, where there is one.
pub open spec fn user_with_email(users: Seq<UserView>, email: Seq<char>) -> UserView {
    users[choose|i: int| 0 <= i < users.len() && (#[trigger] users[i]).email == email]
}

/// Among distinct users, the one found by an identifier or by an email is
/// the only one that has it.
pub proof fn lemma_user_found(users: Seq<UserView>, i: int)
    requires
        distinct_users(users),
        0 <= i < users.len(),
    ensures
        has_user(users, users[i].id),
        user_with_id(users, users[i].id) == users[i],
        has_email(users, users[i].email),
        user_with_email(users, users[i].email) == users[i],
{
}

/// The user accounts.
#[derive(Debug)]
pub struct UserDirectory {
    users: Vec<User>,
}

impl View for UserDirectory {
    type V = Seq<UserView>;

    closed spec fn view(&self) -> Seq<UserView> {
        user_views(self.users@)
    }
}

impl UserDirectory {
    /// Holds of every directory: identifiers and emails are unique.
    #[verifier::type_invariant]
    pub open spec fn well_formed(self) -> bool {
        distinct_users(self@)
    }

    /// A directory without users.
    pub fn new() -> (r: UserDirectory)
        ensures
            r@ == Seq::<UserView>::empty(),
    {
        UserDirectory { users: Vec::new() }
    }

    /// The number of users.
    pub fn len(&self) -> (r: usize)
        ensures
            r == self@.len(),
    {
        self.users.len()
    }

    /// The user with an identifier.
    pub fn find_by_id(&self, id: UserId) -> (r: Option<&User>)
        ensures
            match r {
                Some(user) => has_user(self@, id) && user@ == user_with_id(self@, id),
                None => !has_user(self@, id),
            },
    {
        proof {
            use_type_invariant(self);
        }
        let mut i: usize = 0;
        while i < self.users.len()
            invariant
                i <= self.users@.len(),
                distinct_users(self@),
                self@ == user_views(self.users@),
                forall|k: int| 0 <= k < i ==> (#[trigger] self@[k]).id != id,
            decreases self.users@.len() - i,
        {
            if self.users[i].id == id {
                proof {
                    lemma_user_found(self@, i as int);
                }
                return Some(&self.users[i]);
            }
            i += 1;
        }
        None
    }

    /// The user with an email.
    pub fn find_by_email(&self, email: &str) -> (r: Option<&User>)
        ensures
            match r {
                Some(user) => has_email(self@, email@) && user@ == user_with_email(self@, email@),
                None => !has_email(self@, email@),
            },
    {
        proof {
            use_type_invariant(self);
        }
        let mut i: usize = 0;
        while i < self.users.len()
            invariant
                i <= self.users@.len(),
                distinct_users(self@),
                self@ == user_views(self.users@),
                forall|k: int| 0 <= k < i ==> (#[trigger] self@[k]).email != email@,
            decreases self.users@.len() - i,
        {
            if same_text(self.users[i].email.as_str(), email) {
                proof {
                    lemma_user_found(self@, i as int);
                }
                return Some(&self.users[i]);
            }
            i += 1;
        }
        None
    }

    /// Adds a user. Fails with `StorageFailure`, and changes nothing, exactly
    /// when the identifier or the email is taken.
    pub fn add_user(&mut self, user: User) -> (r: Result<(), AccessError>)
        ensures
            match r {
                Ok(_) => {
                    &&& !has_user(old(self)@, user.id)
                    &&& !has_email(old(self)@, user@.email)
                    &&& final(self)@ == old(self)@.push(user@)
                },
                Err(e) => {
                    &&& has_user(old(self)@, user.id) || has_email(old(self)@, user@.email)
                    &&& e matches AccessError::StorageFailure(message)
                        && message@ == DUPLICATE_USER@
                    &&& final(self)@ == old(self)@
                },
            },
    {
        proof {
            use_type_invariant(&*self);
        }
        if self.find_by_id(user.id).is_some() || self.find_by_email(user.email.as_str()).is_some() {
            return Err(AccessError::StorageFailure(String::from_str(DUPLICATE_USER)));
        }
        let ghost before = self@;
        let mut users: Vec<User> = Vec::new();
        std::mem::swap(&mut users, &mut self.users);
        users.push(user);
        assert(user_views(users@) =~= before.push(user@));
        self.users = users;
        Ok(())
    }
}

/// What a request's session token says of who is asking.
#[derive(Debug, PartialEq, Eq)]
pub enum SessionState {
    /// No token was presented.
    Anonymous,
    /// The token names this user.
    Authenticated(User),
    /// A token was presented, and it names no existing user.
    Invalid,
}

/// What a session state holds, as plain values.
pub enum SessionView {
    Anonymous,
    Authenticated(UserView),
    Invalid,
}

impl View for SessionState {
    type V = SessionView;

    open spec fn view(&self) -> SessionView {
        match self {
            SessionState::Anonymous => SessionView::Anonymous,
            SessionState::Authenticated(user) => SessionView::Authenticated(user@),
            SessionState::Invalid => SessionView::Invalid,
        }
    }
}

/// The session of a token that was presented and names this user, or was
/// malformed and names none.
pub open spec fn session_of(identity: Option<UserId>, users: Seq<UserView>) -> SessionView {
    match identity {
        Some(id) => if has_user(users, id) {
            SessionView::Authenticated(user_with_id(users, id))
        } else {
            SessionView::Invalid
        },
        None => SessionView::Invalid,
    }
}

/// The session that a request's token resolves to.
pub open spec fn resolved(token: Option<Seq<char>>, users: Seq<UserView>) -> SessionView {
    match token {
        None => SessionView::Anonymous,
        Some(t) => session_of(token_user(t), users),
    }
}

/// Resolution is total, and its three outcomes are told apart by the token
/// alone and by whether the user it names exists: without a token the
/// session is anonymous; with a token that names an existing user it is that
/// user's; with any other token it is invalid.
pub proof fn lemma_resolution_cases(token: Option<Seq<char>>, users: Seq<UserView>)
    ensures
        token is None ==> resolved(token, users) == SessionView::Anonymous,
        token matches Some(t) ==> (token_user(t) matches Some(id) ==> (has_user(users, id)
            ==> resolved(token, users) == SessionView::Authenticated(user_with_id(users, id)))),
        token matches Some(t) ==> (token_user(t) matches Some(id) ==> (!has_user(users, id)
            ==> resolved(token, users) == SessionView::Invalid)),
        token matches Some(t) ==> (token_user(t) is None ==> resolved(token, users)
            == SessionView::Invalid),
{
}

/// The session of a presented token, given the user that the token names.
pub fn session_for(identity: Option<UserId>, directory: &UserDirectory) -> (r: SessionState)
    ensures
        r@ == session_of(identity, directory@),
{
    match identity {
        None => SessionState::Invalid,
        Some(id) => match directory.find_by_id(id) {
            Some(user) => SessionState::Authenticated(user.clone()),
            None => SessionState::Invalid,
        },
    }
}

/// Resolves the session token of a request to an identity. A malformed
/// token is a token that names nobody.
pub fn resolve(token: Option<&str>, directory: &UserDirectory) -> (r: SessionState)
    ensures
        r@ == resolved(optional_text(token), directory@),
{
    match token {
        None => SessionState::Anonymous,
        Some(t) => session_for(UserId::from_token(t), directory),
    }
}

/// A session handed to a client: the token to keep in the session cookie,
/// and the place to go next.
#[derive(Debug, PartialEq, Eq)]
pub struct SessionGrant {
    pub token: String,
    pub redirect_to: String,
}

/// What a session grant holds, as plain values.
pub struct GrantView {
    pub token: Seq<char>,
    pub redirect_to: Seq<char>,
}

impl View for SessionGrant {
    type V = GrantView;

    open spec fn view(&self) -> GrantView {
        GrantView { token: self.token@, redirect_to: self.redirect_to@ }
    }
}

/// Where to go after login or signup: back where the request came from, or
/// home.
pub open spec fn destination(referer: Option<Seq<char>>) -> Seq<char> {
    match referer {
        Some(r) => r,
        None => HOME@,
    }
}

/// The session granted to a user.
pub open spec fn grant_of(user: UserId, referer: Option<Seq<char>>) -> GrantView {
    GrantView { token: uuid_text(user.0), redirect_to: destination(referer) }
}

impl SessionGrant {
    /// Grants a session to a user. The token names that user.
    pub fn issue(user: UserId, referer: Option<String>) -> (r: SessionGrant)
        ensures
            r@ == grant_of(user, optional_string(referer)),
            token_user(r@.token) == Some(user),
    {
        let redirect_to = match referer {
            Some(r) => r,
            None => String::from_str(HOME),
        };
        SessionGrant { token: user.to_token(), redirect_to }
    }
}

/// Logs in: grants a session to the user with an email. Fails with
/// `NotFound` exactly when no user has the email.
pub fn create_session(
    directory: &UserDirectory,
    email: &str,
    referer: Option<String>,
) -> (r: Result<SessionGrant, AccessError>)
    ensures
        match r {
            Ok(grant) => {
                &&& has_email(directory@, email@)
                &&& grant@ == grant_of(
                    user_with_email(directory@, email@).id,
                    optional_string(referer),
                )
                &&& token_user(grant@.token) == Some(user_with_email(directory@, email@).id)
            },
            Err(e) => !has_email(directory@, email@) && e is NotFound,
        },
{
    match directory.find_by_email(email) {
        Some(user) => Ok(SessionGrant::issue(user.id, referer)),
        None => Err(AccessError::NotFound),
    }
}

/// Whether a request carries the invite code.
pub open spec fn invited(invite: Option<Seq<char>>, secret: Seq<char>) -> bool {
    invite == Some(secret)
}

/// Admits to signup a request that carries the invite code. Fails with
/// `NotInvited` exactly when the code is missing or is not the secret.
pub fn check_invite(invite: Option<&str>, secret: &str) -> (r: Result<(), AccessError>)
    ensures
        match r {
            Ok(_) => invited(optional_text(invite), secret@),
            Err(e) => !invited(optional_text(invite), secret@) && e is NotInvited,
        },
{
    match invite {
        Some(code) => {
            if same_text(code, secret) {
                Ok(())
            } else {
                Err(AccessError::NotInvited)
            }
        },
        None => Err(AccessError::NotInvited),
    }
}

/// Signs up: adds the user and grants a session to it. Fails with
/// `NotInvited` exactly when the request does not carry the invite code, and
/// otherwise with `StorageFailure` exactly when the identifier or the email
/// is taken. Where it fails, no user is added.
pub fn create_user(
    directory: &mut UserDirectory,
    invite: Option<&str>,
    secret: &str,
    user: User,
    referer: Option<String>,
) -> (r: Result<SessionGrant, AccessError>)
    ensures
        match r {
            Ok(grant) => {
                &&& invited(optional_text(invite), secret@)
                &&& !has_user(old(directory)@, user.id)
                &&& !has_email(old(directory)@, user@.email)
                &&& final(directory)@ == old(directory)@.push(user@)
                &&& grant@ == grant_of(user.id, optional_string(referer))
                &&& token_user(grant@.token) == Some(user.id)
            },
            Err(e) => {
                &&& final(directory)@ == old(directory)@
                &&& if invited(optional_text(invite), secret@) {
                    &&& has_user(old(directory)@, user.id) || has_email(
                        old(directory)@,
                        user@.email,
                    )
                    &&& e matches AccessError::StorageFailure(message)
                        && message@ == DUPLICATE_USER@
                } else {
                    e is NotInvited
                }
            },
        },
{
    match check_invite(invite, secret) {
        Err(e) => Err(e),
        Ok(_) => {
            let id = user.id;
            match directory.add_user(user) {
                Err(e) => Err(e),
                Ok(_) => Ok(SessionGrant::issue(id, referer)),
            }
        },
    }
}

} // verus!
