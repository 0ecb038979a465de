//! The failures of the gates and of the unlock engine, and the response that
//! each one is answered with.

use vstd::prelude::*;
use vstd::string::*;
use crate::text::{decimal, decimal_text};

verus! {

/// Status of a request that storage could not serve, or that named an
/// account that cannot be created.
pub const STATUS_BAD_REQUEST: u16 = 400;

/// Status of a request whose session token names no user.
pub const STATUS_UNAUTHORIZED: u16 = 401;

/// Status of a request by a known user, or by a visitor at signup, for
/// something that is not allowed.
pub const STATUS_FORBIDDEN: u16 = 403;

/// Status of a request for something that does not exist.
pub const STATUS_NOT_FOUND: u16 = 404;

/// What a user is told who asks for an item before its turn.
pub const RESPONSE_FORBIDDEN: &'static str =
    "Looks like you skipped an egg... Don't rush things, mate. Where is the joy in that?";

/// What a client is told who asks for something that does not exist.
pub const RESPONSE_NOT_FOUND: &'static str = "You lookin for something mate?";

/// What a visitor is told who signs up without the invite code.
pub const RESPONSE_NOT_INVITED: &'static str = "Sorry bro, you weren't invited...";

/// What a client is told whose session token names nobody.
pub const RESPONSE_UNAUTHORIZED: &'static str = "Who the fuck are you...?";

/// Why a request was not served.
#[derive(Debug, PartialEq, Eq)]
pub enum AccessError {
    /// The content item or the user that the request refers to does not exist.
    NotFound,
    /// A session token was presented, and it names no existing user.
    Unauthorized,
    /// The user is known, but has not completed the item before the one
    /// requested.
    Locked,
    /// An account was to be created without the invite code.
    NotInvited,
    /// Storage failed; the text is its message.
    StorageFailure(String),
}

/// What an error response holds, as plain values.
pub struct ResponseView {
    pub status: u16,
    pub reason: Option<Seq<char>>,
}

/// An error as it is shown to the client: a status code and, optionally, a
/// sentence that gives the reason.
#[derive(Debug, PartialEq, Eq)]
pub struct ErrorResponse {
    pub status: u16,
    pub reason: Option<String>,
}

impl View for ErrorResponse {
    type V = ResponseView;

    open spec fn view(&self) -> ResponseView {
        ResponseView {
            status: self.status,
            reason: match self.reason {
                Some(r) => Some(r@),
                None => None,
            },
        }
    }
}

/// The response that answers each failure.
pub open spec fn response_of(e: AccessError) -> ResponseView {
    match e {
        AccessError::NotFound => ResponseView {
            status: STATUS_NOT_FOUND,
            reason: Some(RESPONSE_NOT_FOUND@),
        },
        AccessError::Unauthorized => ResponseView {
            status: STATUS_UNAUTHORIZED,
            reason: Some(RESPONSE_UNAUTHORIZED@),
        },
        AccessError::Locked => ResponseView {
            status: STATUS_FORBIDDEN,
            reason: Some(RESPONSE_FORBIDDEN@),
        },
        AccessError::NotInvited => ResponseView {
            status: STATUS_FORBIDDEN,
            reason: Some(RESPONSE_NOT_INVITED@),
        },
        AccessError::StorageFailure(message) => ResponseView {
            status: STATUS_BAD_REQUEST,
            reason: Some(message@),
        },
    }
}

/// The paragraph that shows a reason, or nothing where there is none.
pub open spec fn reason_markup(reason: Option<Seq<char>>) -> Seq<char> {
    match reason {
        Some(r) => "<p>"@ + r + "</p>"@,
        None => Seq::<char>::empty(),
    }
}

/// The page that shows a status and a reason without any template.
pub open spec fn plain_markup(response: ResponseView) -> Seq<char> {
    "<!doctype html><html><body><h1>"@ + decimal(response.status as nat) + "</h1>"@
        + reason_markup(response.reason) + "</body></html>"@
}

impl ErrorResponse {
    pub fn new(status: u16, message: Option<&str>) -> (r: ErrorResponse)
        ensures
            r@.status == status,
            r@.reason == match message {
                Some(m) => Some(m@),
                None => None,
            },
    {
        ErrorResponse {
            status,
            reason: match message {
                Some(m) => Some(String::from_str(m)),
                None => None,
            },
        }
    }

    /// The page to send where the error template cannot be rendered.
    pub fn plain_page(&self) -> (r: String)
        ensures
            r@ == plain_markup(self@),
    {
        let mut page = String::from_str("<!doctype html><html><body><h1>");
        let code = decimal_text(self.status);
        page.append(code.as_str());
        page.append("</h1>");
        match &self.reason {
            Some(reason) => {
                page.append("<p>");
                page.append(reason.as_str());
                page.append("</p>");
                assert(page@ =~= "<!doctype html><html><body><h1>"@ + decimal(self.status as nat)
                    + "</h1>"@ + ("<p>"@ + reason@ + "</p>"@));
            },
            None => {
                assert(page@ =~= "<!doctype html><html><body><h1>"@ + decimal(self.status as nat)
                    + "</h1>"@ + Seq::<char>::empty());
            },
        }
        page.append("</body></html>");
        page
    }
}

impl AccessError {
    /// The response that answers this failure.
    pub fn to_response(&self) -> (r: ErrorResponse)
        ensures
            r@ == response_of(*self),
    {
        match self {
            AccessError::NotFound => ErrorResponse::new(STATUS_NOT_FOUND, Some(RESPONSE_NOT_FOUND)),
            AccessError::Unauthorized => ErrorResponse::new(
                STATUS_UNAUTHORIZED,
                Some(RESPONSE_UNAUTHORIZED),
            ),
            AccessError::Locked => ErrorResponse::new(STATUS_FORBIDDEN, Some(RESPONSE_FORBIDDEN)),
            AccessError::NotInvited => ErrorResponse::new(
                STATUS_FORBIDDEN,
                Some(RESPONSE_NOT_INVITED),
            ),
            AccessError::StorageFailure(message) => ErrorResponse::new(
                STATUS_BAD_REQUEST,
                Some(message.as_str()),
            ),
        }
    }
}

/// Whether two failures are of the same kind.
pub open spec fn same_kind(a: AccessError, b: AccessError) -> bool {
    ||| a is NotFound && b is NotFound
    ||| a is Unauthorized && b is Unauthorized
    ||| a is Locked && b is Locked
    ||| a is NotInvited && b is NotInvited
    ||| a is StorageFailure && b is StorageFailure
}

/// Failures of different kinds are answered with different responses.
pub proof fn lemma_kinds_answered_apart(a: AccessError, b: AccessError)
    requires
        !same_kind(a, b),
    ensures
        response_of(a) != response_of(b),
{
    reveal_strlit("Looks like you skipped an egg... Don't rush things, mate. Where is the joy in that?");
    reveal_strlit("Sorry bro, you weren't invited...");
    assert(RESPONSE_FORBIDDEN@[0] != RESPONSE_NOT_INVITED@[0]);
}

} // verus!
