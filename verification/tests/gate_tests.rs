use progressive_unlock::error::AccessError;
use progressive_unlock::gate::{
    invite_gate, protected_entry, session_gate, Admission, GateOutcome,
};
use progressive_unlock::ident::UserId;
use progressive_unlock::session::{SessionState, User};

fn carol() -> User {
    User { id: UserId(3), email: "carol@example.com".to_string(), name: "Carol".to_string() }
}

#[test]
fn anonymous_visitor_with_the_invite_code_is_sent_to_signup() {
    let outcome = invite_gate(&SessionState::Anonymous, "/", Some("s3cret"), "s3cret");
    assert_eq!(outcome, GateOutcome::Redirect("/signup?referer=/&invite=s3cret".to_string()));
}

#[test]
fn anonymous_visitor_with_a_wrong_code_passes_and_is_sent_to_login() {
    let outcome = invite_gate(&SessionState::Anonymous, "/", Some("guess"), "s3cret");
    assert_eq!(outcome, GateOutcome::Proceed);
    assert_eq!(
        session_gate(SessionState::Anonymous, "/"),
        Ok(Admission::Redirect("/login?referer=/".to_string()))
    );
}

#[test]
fn invite_gate_applies_at_the_site_root_only() {
    for path in ["/eggs/1", "", "//", "/signup", "/?"] {
        assert_eq!(
            invite_gate(&SessionState::Anonymous, path, Some("s3cret"), "s3cret"),
            GateOutcome::Proceed
        );
    }
}

#[test]
fn invite_gate_needs_an_invite_parameter() {
    assert_eq!(invite_gate(&SessionState::Anonymous, "/", None, "s3cret"), GateOutcome::Proceed);
    assert_eq!(
        invite_gate(&SessionState::Anonymous, "/", Some(""), "s3cret"),
        GateOutcome::Proceed
    );
}

#[test]
fn invite_gate_never_touches_a_request_with_a_token() {
    assert_eq!(
        invite_gate(&SessionState::Authenticated(carol()), "/", Some("s3cret"), "s3cret"),
        GateOutcome::Proceed
    );
    assert_eq!(
        invite_gate(&SessionState::Invalid, "/", Some("s3cret"), "s3cret"),
        GateOutcome::Proceed
    );
}

#[test]
fn session_gate_sends_an_anonymous_request_to_login() {
    assert_eq!(
        session_gate(SessionState::Anonymous, "/eggs/7?x=1"),
        Ok(Admission::Redirect("/login?referer=/eggs/7?x=1".to_string()))
    );
}

#[test]
fn session_gate_rejects_an_invalid_session() {
    assert_eq!(session_gate(SessionState::Invalid, "/"), Err(AccessError::Unauthorized));
}

#[test]
fn session_gate_admits_the_user_of_a_session() {
    assert_eq!(
        session_gate(SessionState::Authenticated(carol()), "/eggs/7"),
        Ok(Admission::Admitted(carol()))
    );
}

#[test]
fn entry_with_the_invite_code_leads_to_signup() {
    assert_eq!(
        protected_entry(SessionState::Anonymous, "/", "/?invite=s3cret", Some("s3cret"), "s3cret"),
        Ok(Admission::Redirect("/signup?referer=/&invite=s3cret".to_string()))
    );
}

#[test]
fn entry_with_a_wrong_code_leads_to_login() {
    assert_eq!(
        protected_entry(SessionState::Anonymous, "/", "/?invite=guess", Some("guess"), "s3cret"),
        Ok(Admission::Redirect("/login?referer=/?invite=guess".to_string()))
    );
}

#[test]
fn entry_to_an_item_without_a_session_leads_to_login() {
    assert_eq!(
        protected_entry(
            SessionState::Anonymous,
            "/eggs/7",
            "/eggs/7?invite=s3cret",
            Some("s3cret"),
            "s3cret"
        ),
        Ok(Admission::Redirect("/login?referer=/eggs/7?invite=s3cret".to_string()))
    );
}

#[test]
fn entry_with_a_session_admits_its_user_whatever_the_invite() {
    assert_eq!(
        protected_entry(SessionState::Authenticated(carol()), "/", "/", Some("s3cret"), "s3cret"),
        Ok(Admission::Admitted(carol()))
    );
    assert_eq!(
        protected_entry(SessionState::Authenticated(carol()), "/eggs/7", "/eggs/7", None, "s3cret"),
        Ok(Admission::Admitted(carol()))
    );
}

#[test]
fn entry_with_an_invalid_session_is_unauthorized_whatever_the_invite() {
    assert_eq!(
        protected_entry(SessionState::Invalid, "/", "/", Some("s3cret"), "s3cret"),
        Err(AccessError::Unauthorized)
    );
    assert_eq!(
        protected_entry(SessionState::Invalid, "/eggs/7", "/eggs/7", None, "s3cret"),
        Err(AccessError::Unauthorized)
    );
}
