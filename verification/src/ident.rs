//! Identifiers of users and content items, and their textual form as it is
//! carried in a session token.

use vstd::prelude::*;

verus! {

/// Identifier of a user account.
#[derive(Clone, Copy, Debug, PartialEq, Eq, Structural)]
pub struct UserId(pub u128);

/// Identifier of a content item.
#[derive(Clone, Copy, Debug, PartialEq, Eq, Structural)]
pub struct ItemId(pub u128);

/// The identifier that `uuid::Uuid::parse_str` reads from a text, as a
/// big-endian 128-bit number, or `None` where it rejects the text.
pub uninterp spec fn uuid_parse(text: Seq<char>) -> Option<u128>;

/// The text that `uuid::Uuid` displays for an identifier.
pub uninterp spec fn uuid_text(id: u128) -> Seq<char>;

/// Calls `uuid::Uuid::parse_str`. Trusted: the result is the parser's, and
/// the parser is a function of the text alone.
#[verifier::external_body]
fn parse_uuid(text: &str) -> (r: Option<u128>)
    ensures
        r == uuid_parse(text@),
{
    match uuid::Uuid::parse_str(text) {
        Ok(id) => Some(id.as_u128()),
        Err(_) => None,
    }
}

/// Calls `ToString::to_string` on a `uuid::Uuid`. Trusted: the result is the
/// displayed (hyphenated, lower-case) form, and the parser reads that form
/// back as the same identifier.
#[verifier::external_body]
fn format_uuid(id: u128) -> (r: String)
    ensures
        r@ == uuid_text(id),
        uuid_parse(r@) == Some(id),
{
    uuid::Uuid::from_u128(id).to_string()
}

impl UserId {
    /// The user that a session token names, if the token is well formed.
    pub fn from_token(token: &str) -> (r: Option<UserId>)
        ensures
            r == token_user(token@),
    {
        match parse_uuid(token) {
            Some(raw) => Some(UserId(raw)),
            None => None,
        }
    }

    /// The session token that names this user.
    pub fn to_token(&self) -> (r: String)
        ensures
            r@ == uuid_text(self.0),
            token_user(r@) == Some(*self),
    {
        format_uuid(self.0)
    }
}

/// The user named by a session token: the identifier it parses to.
pub open spec fn token_user(token: Seq<char>) -> Option<UserId> {
    match uuid_parse(token) {
        Some(raw) => Some(UserId(raw)),
        None => None,
    }
}

} // verus!
