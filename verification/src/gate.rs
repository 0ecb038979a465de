//! The two gates that a request passes before it reaches a protected page:
//! the invite gate, which offers an anonymous visitor with the invite code a
//! shortcut into signup, and the session gate, which admits only a request
//! whose session names an existing user.

use vstd::prelude::*;
use vstd::string::*;
use crate::error::AccessError;
use crate::session::{invited, SessionState, SessionView, User};
use crate::text::{optional_text, same_text};

verus! {

/// The path of the site root.
pub const ROOT: &'static str = "/";

/// What a gate that never blocks does with a request.
#[derive(Debug, PartialEq, Eq)]
pub enum GateOutcome {
    /// The request goes on unchanged.
    Proceed,
    /// The request is answered with a redirect to this location.
    Redirect(String),
}

/// What the session gate does with a request that it does not reject.
#[derive(Debug, PartialEq, Eq)]
pub enum Admission {
    /// The request goes on, on behalf of this user.
    Admitted(User),
    /// The request is answered with a redirect to this location.
    Redirect(String),
}

/// Whether the invite gate offers its shortcut: the visitor is anonymous,
/// asks for the site root, and carries the invite code.
pub open spec fn shortcut_applies(
    session: SessionView,
    path: Seq<char>,
    invite: Option<Seq<char>>,
    secret: Seq<char>,
) -> bool {
    session is Anonymous && path == ROOT@ && invited(invite, secret)
}

/// The signup entry point, with the path that was asked for and the invite
/// code as its parameters.
pub open spec fn signup_location(path: Seq<char>, invite: Seq<char>) -> Seq<char> {
    "/signup?referer="@ + path + "&invite="@ + invite
}

/// The login entry point, with the location that was asked for as its
/// parameter.
pub open spec fn login_location(requested: Seq<char>) -> Seq<char> {
    "/login?referer="@ + requested
}

/// The invite gate. It redirects to signup exactly when the shortcut
/// applies, and lets every other request through.
pub fn invite_gate(
    session: &SessionState,
    path: &str,
    invite: Option<&str>,
    secret: &str,
) -> (r: GateOutcome)
    ensures
        match r {
            GateOutcome::Redirect(location) => {
                &&& shortcut_applies(session@, path@, optional_text(invite), secret@)
                &&& optional_text(invite) matches Some(code)
                    && location@ == signup_location(path@, code)
            },
            GateOutcome::Proceed => {
                !shortcut_applies(session@, path@, optional_text(invite), secret@)
            },
        },
{
    match (session, invite) {
        (SessionState::Anonymous, Some(code)) => {
            if same_text(path, ROOT) && same_text(code, secret) {
                let mut location = String::from_str("/signup?referer=");
                location.append(path);
                location.append("&invite=");
                location.append(code);
                GateOutcome::Redirect(location)
            } else {
                GateOutcome::Proceed
            }
        },
        _ => GateOutcome::Proceed,
    }
}

/// The session gate. An anonymous request is redirected to login, a request
/// with an invalid session is rejected as `Unauthorized`, and a request with
/// a session is admitted on behalf of its user.
pub fn session_gate(session: SessionState, requested: &str) -> (r: Result<Admission, AccessError>)
    ensures
        match session {
            SessionState::Anonymous => {
                r matches Ok(Admission::Redirect(location))
                    && location@ == login_location(requested@)
            },
            SessionState::Authenticated(user) => {
                r matches Ok(Admission::Admitted(admitted)) && admitted == user
            },
            SessionState::Invalid => r matches Err(e) && e is Unauthorized,
        },
{
    match session {
        SessionState::Anonymous => {
            let mut location = String::from_str("/login?referer=");
            location.append(requested);
            Ok(Admission::Redirect(location))
        },
        SessionState::Authenticated(user) => Ok(Admission::Admitted(user)),
        SessionState::Invalid => Err(AccessError::Unauthorized),
    }
}

/// Where an anonymous visitor to a protected page is sent: to signup where
/// the shortcut of the invite gate applies, else to login.
pub open spec fn entry_location(
    path: Seq<char>,
    requested: Seq<char>,
    invite: Option<Seq<char>>,
    secret: Seq<char>,
) -> Seq<char> {
    if shortcut_applies(SessionView::Anonymous, path, invite, secret) {
        signup_location(path, invite->0)
    } else {
        login_location(requested)
    }
}

/// The way into a protected page: first the invite gate, on the path that
/// was asked for, then the session gate, on the whole location that was
/// asked for. Where the invite gate redirects, the session gate is not
/// asked.
pub fn protected_entry(
    session: SessionState,
    path: &str,
    requested: &str,
    invite: Option<&str>,
    secret: &str,
) -> (r: Result<Admission, AccessError>)
    ensures
        match session {
            SessionState::Anonymous => {
                r matches Ok(Admission::Redirect(location))
                    && location@ == entry_location(
                    path@,
                    requested@,
                    optional_text(invite),
                    secret@,
                )
            },
            SessionState::Authenticated(user) => {
                r matches Ok(Admission::Admitted(admitted)) && admitted == user
            },
            SessionState::Invalid => r matches Err(e) && e is Unauthorized,
        },
{
    match invite_gate(&session, path, invite, secret) {
        GateOutcome::Redirect(location) => Ok(Admission::Redirect(location)),
        GateOutcome::Proceed => session_gate(session, requested),
    }
}

} // verus!
