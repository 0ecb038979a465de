use progressive_unlock::error::AccessError;
use progressive_unlock::ident::UserId;
use progressive_unlock::session::{
    check_invite, create_session, create_user, resolve, session_for, SessionGrant, SessionState,
    User, UserDirectory, DUPLICATE_USER, SESSION_COOKIE,
};

const ALICE: u128 = 0x550e8400_e29b_41d4_a716_446655440000;
const ALICE_TOKEN: &str = "550e8400-e29b-41d4-a716-446655440000";
const BOB: u128 = 0x67e55044_10b1_426f_9247_bb680e5fe0c8;
const BOB_TOKEN: &str = "67e55044-10b1-426f-9247-bb680e5fe0c8";

fn user(id: u128, email: &str, name: &str) -> User {
    User { id: UserId(id), email: email.to_string(), name: name.to_string() }
}

fn alice() -> User {
    user(ALICE, "alice@example.com", "Alice")
}

fn directory_with(users: Vec<User>) -> UserDirectory {
    let mut directory = UserDirectory::new();
    for u in users {
        directory.add_user(u).unwrap();
    }
    directory
}

#[test]
fn no_token_is_anonymous() {
    let directory = directory_with(vec![alice()]);
    assert_eq!(resolve(None, &directory), SessionState::Anonymous);
    assert_eq!(resolve(None, &UserDirectory::new()), SessionState::Anonymous);
}

#[test]
fn token_of_an_existing_user_is_authenticated() {
    let directory = directory_with(vec![user(BOB, "bob@example.com", "Bob"), alice()]);
    assert_eq!(resolve(Some(ALICE_TOKEN), &directory), SessionState::Authenticated(alice()));
}

#[test]
fn token_of_a_deleted_user_is_invalid() {
    let directory = directory_with(vec![alice()]);
    assert_eq!(resolve(Some(BOB_TOKEN), &directory), SessionState::Invalid);
    assert_eq!(resolve(Some(ALICE_TOKEN), &UserDirectory::new()), SessionState::Invalid);
}

#[test]
fn malformed_token_is_invalid() {
    let directory = directory_with(vec![alice()]);
    assert_eq!(resolve(Some("not a token"), &directory), SessionState::Invalid);
    assert_eq!(resolve(Some(""), &directory), SessionState::Invalid);
    assert_eq!(resolve(Some("550e8400-e29b-41d4-a716-44665544000"), &directory), SessionState::Invalid);
    assert_eq!(resolve(Some("550e8400-e29b-41d4-a716-44665544000g"), &directory), SessionState::Invalid);
}

#[test]
fn malformed_token_does_not_name_the_zero_user() {
    let directory = directory_with(vec![user(0, "zero@example.com", "Zero")]);
    assert_eq!(resolve(Some("garbage"), &directory), SessionState::Invalid);
    assert_eq!(
        resolve(Some("00000000-0000-0000-0000-000000000000"), &directory),
        SessionState::Authenticated(user(0, "zero@example.com", "Zero"))
    );
}

#[test]
fn session_for_a_parsed_identity() {
    let directory = directory_with(vec![alice()]);
    assert_eq!(session_for(None, &directory), SessionState::Invalid);
    assert_eq!(session_for(Some(UserId(BOB)), &directory), SessionState::Invalid);
    assert_eq!(session_for(Some(UserId(ALICE)), &directory), SessionState::Authenticated(alice()));
}

#[test]
fn token_is_read_in_every_form() {
    assert_eq!(UserId::from_token(ALICE_TOKEN), Some(UserId(ALICE)));
    assert_eq!(UserId::from_token("550e8400e29b41d4a716446655440000"), Some(UserId(ALICE)));
    assert_eq!(UserId::from_token("550E8400-E29B-41D4-A716-446655440000"), Some(UserId(ALICE)));
    assert_eq!(
        UserId::from_token("urn:uuid:550e8400-e29b-41d4-a716-446655440000"),
        Some(UserId(ALICE))
    );
    assert_eq!(
        UserId::from_token("{550e8400-e29b-41d4-a716-446655440000}"),
        Some(UserId(ALICE))
    );
    assert_eq!(UserId::from_token("550e8400"), None);
    assert_eq!(UserId::from_token(" 550e8400-e29b-41d4-a716-446655440000"), None);
}

#[test]
fn token_is_written_hyphenated_in_lower_case() {
    assert_eq!(UserId(ALICE).to_token(), ALICE_TOKEN);
    assert_eq!(UserId(0).to_token(), "00000000-0000-0000-0000-000000000000");
    assert_eq!(UserId(u128::MAX).to_token(), "ffffffff-ffff-ffff-ffff-ffffffffffff");
    assert_eq!(UserId(0xABCDEF).to_token(), "00000000-0000-0000-0000-000000abcdef");
}

#[test]
fn written_token_names_its_user() {
    for id in [0u128, 1, ALICE, BOB, u128::MAX, 1 << 64] {
        assert_eq!(UserId::from_token(&UserId(id).to_token()), Some(UserId(id)));
    }
}

#[test]
fn token_agrees_with_the_uuid_crate() {
    let id = uuid::Uuid::parse_str(BOB_TOKEN).unwrap();
    assert_eq!(UserId::from_token(BOB_TOKEN), Some(UserId(id.as_u128())));
    assert_eq!(UserId(id.as_u128()).to_token(), id.to_string());
}

#[test]
fn users_are_found_by_identifier_and_by_email() {
    let directory = directory_with(vec![alice(), user(BOB, "bob@example.com", "Bob")]);
    assert_eq!(directory.len(), 2);
    assert_eq!(directory.find_by_id(UserId(BOB)).unwrap().name, "Bob");
    assert_eq!(directory.find_by_id(UserId(3)), None);
    assert_eq!(directory.find_by_email("alice@example.com"), Some(&alice()));
    assert_eq!(directory.find_by_email("Alice@example.com"), None);
    assert_eq!(directory.find_by_email(""), None);
}

#[test]
fn taken_email_or_identifier_is_a_storage_failure() {
    let mut directory = directory_with(vec![alice()]);
    assert_eq!(
        directory.add_user(user(BOB, "alice@example.com", "Impostor")),
        Err(AccessError::StorageFailure(DUPLICATE_USER.to_string()))
    );
    assert_eq!(
        directory.add_user(user(ALICE, "other@example.com", "Other")),
        Err(AccessError::StorageFailure(DUPLICATE_USER.to_string()))
    );
    assert_eq!(directory.len(), 1);
    assert_eq!(directory.find_by_id(UserId(ALICE)), Some(&alice()));
    assert_eq!(directory.add_user(user(BOB, "bob@example.com", "Bob")), Ok(()));
    assert_eq!(directory.len(), 2);
}

#[test]
fn login_grants_a_session_to_the_user_with_the_email() {
    let directory = directory_with(vec![user(BOB, "bob@example.com", "Bob"), alice()]);
    let grant = create_session(&directory, "alice@example.com", None).unwrap();
    assert_eq!(
        grant,
        SessionGrant { token: ALICE_TOKEN.to_string(), redirect_to: "/".to_string() }
    );
    assert_eq!(resolve(Some(&grant.token), &directory), SessionState::Authenticated(alice()));
}

#[test]
fn login_returns_to_where_the_visitor_came_from() {
    let directory = directory_with(vec![alice()]);
    let grant =
        create_session(&directory, "alice@example.com", Some("/eggs/42".to_string())).unwrap();
    assert_eq!(grant.redirect_to, "/eggs/42");
    assert_eq!(grant.token, ALICE_TOKEN);
}

#[test]
fn login_with_an_unknown_email_is_not_found() {
    let directory = directory_with(vec![alice()]);
    assert_eq!(
        create_session(&directory, "nobody@example.com", None),
        Err(AccessError::NotFound)
    );
}

#[test]
fn invite_code_must_be_the_secret() {
    assert_eq!(check_invite(Some("s3cret"), "s3cret"), Ok(()));
    assert_eq!(check_invite(Some("s3cres"), "s3cret"), Err(AccessError::NotInvited));
    assert_eq!(check_invite(Some("s3cret "), "s3cret"), Err(AccessError::NotInvited));
    assert_eq!(check_invite(Some(""), "s3cret"), Err(AccessError::NotInvited));
    assert_eq!(check_invite(None, "s3cret"), Err(AccessError::NotInvited));
    assert_eq!(check_invite(None, ""), Err(AccessError::NotInvited));
    assert_eq!(check_invite(Some(""), ""), Ok(()));
}

#[test]
fn signup_without_the_invite_code_creates_no_user() {
    let mut directory = directory_with(vec![user(BOB, "bob@example.com", "Bob")]);
    assert_eq!(
        create_user(&mut directory, Some("guess"), "s3cret", alice(), None),
        Err(AccessError::NotInvited)
    );
    assert_eq!(
        create_user(&mut directory, None, "s3cret", alice(), None),
        Err(AccessError::NotInvited)
    );
    assert_eq!(directory.len(), 1);
    assert_eq!(directory.find_by_id(UserId(ALICE)), None);
    assert_eq!(directory.find_by_email("alice@example.com"), None);
}

#[test]
fn signup_with_the_invite_code_creates_the_user() {
    let mut directory = UserDirectory::new();
    let grant =
        create_user(&mut directory, Some("s3cret"), "s3cret", alice(), Some("/".to_string()))
            .unwrap();
    assert_eq!(
        grant,
        SessionGrant { token: ALICE_TOKEN.to_string(), redirect_to: "/".to_string() }
    );
    assert_eq!(directory.len(), 1);
    assert_eq!(directory.find_by_email("alice@example.com"), Some(&alice()));
    assert_eq!(resolve(Some(&grant.token), &directory), SessionState::Authenticated(alice()));
}

#[test]
fn signup_with_a_taken_email_is_a_storage_failure() {
    let mut directory = directory_with(vec![alice()]);
    assert_eq!(
        create_user(
            &mut directory,
            Some("s3cret"),
            "s3cret",
            user(BOB, "alice@example.com", "Bob"),
            None
        ),
        Err(AccessError::StorageFailure(DUPLICATE_USER.to_string()))
    );
    assert_eq!(directory.len(), 1);
    assert_eq!(directory.find_by_id(UserId(BOB)), None);
}

#[test]
fn signup_checks_the_invite_before_the_email() {
    let mut directory = directory_with(vec![alice()]);
    assert_eq!(
        create_user(&mut directory, Some("guess"), "s3cret", alice(), None),
        Err(AccessError::NotInvited)
    );
}

#[test]
fn session_cookie_is_named_user_id() {
    assert_eq!(SESSION_COOKIE, "user_id");
}

#[test]
fn clone_of_a_user_is_equal_to_it() {
    assert_eq!(alice().clone(), alice());
}
