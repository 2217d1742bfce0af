use cutekit::event::{begin_authentication, cancel_authentication, AuthenticationEvent, Intent};
use cutekit::manager::SessionManager;
use cutekit::session::{
    Authorized, EndReason, Outcome, SessionError, Status, VerificationError,
};

fn texts(items: &[&str]) -> Vec<String> {
    items.iter().map(|s| s.to_string()).collect()
}

fn started(cookie: &str, message: &str, identities: &[&str]) -> AuthenticationEvent {
    AuthenticationEvent::Started {
        cookie: cookie.to_string(),
        message: message.to_string(),
        identities: texts(identities),
    }
}

fn password(cookie: &str, identity: &str, secret: &str) -> AuthenticationEvent {
    AuthenticationEvent::UserProvidedPassword {
        cookie: cookie.to_string(),
        identity: identity.to_string(),
        secret: secret.to_string(),
    }
}

fn active_count(manager: &SessionManager, cookies: &[&str]) -> usize {
    cookies.iter().filter(|c| manager.status(c) == Some(Status::Active)).count()
}

#[test]
fn new_manager_tracks_nothing() {
    let manager = SessionManager::new();
    assert_eq!(manager.status("tok1"), None);
    assert_eq!(manager.session("tok1"), None);
    assert_eq!(manager.active_cookie(), None);
}

#[test]
fn start_makes_the_session_active() {
    let mut manager = SessionManager::new();
    let r = manager.start_authentication(
        "tok1".to_string(),
        "Authenticate to install package".to_string(),
        texts(&["alice", "root"]),
    );
    assert_eq!(r, Ok(true));
    assert_eq!(manager.status("tok1"), Some(Status::Active));
    assert_eq!(manager.active_cookie(), Some("tok1".to_string()));
    let session = manager.session("tok1").unwrap();
    assert_eq!(session.cookie, "tok1");
    assert_eq!(session.message, "Authenticate to install package");
    assert_eq!(session.identities, texts(&["alice", "root"]));
    assert_eq!(session.status, Status::Active);
    assert_eq!(session.verifying, None);
}

#[test]
fn start_with_a_cookie_under_way_is_a_duplicate() {
    let mut manager = SessionManager::new();
    assert_eq!(
        manager.start_authentication("c".to_string(), "m".to_string(), texts(&["alice"])),
        Ok(true)
    );
    let before = manager.session("c");
    assert_eq!(
        manager.start_authentication("c".to_string(), "other".to_string(), texts(&["bob"])),
        Err(SessionError::DuplicateCookie)
    );
    assert_eq!(manager.session("c"), before);
}

#[test]
fn second_request_is_refused_while_first_is_active() {
    let mut manager = SessionManager::new();
    assert_eq!(
        manager.start_authentication("c1".to_string(), "m1".to_string(), texts(&["alice"])),
        Ok(true)
    );
    assert_eq!(
        manager.start_authentication("c2".to_string(), "m2".to_string(), texts(&["bob"])),
        Ok(false)
    );
    assert_eq!(manager.status("c1"), Some(Status::Active));
    assert_eq!(manager.status("c2"), None);
    assert_eq!(manager.active_cookie(), Some("c1".to_string()));
}

#[test]
fn at_most_one_session_is_active_along_a_run() {
    let cookies = ["a", "b", "c"];
    let mut manager = SessionManager::new();
    let inputs = vec![
        started("a", "m", &["alice"]),
        started("b", "m", &["alice"]),
        password("a", "alice", "pw"),
        started("c", "m", &["alice"]),
        AuthenticationEvent::UserCanceled { cookie: "a".to_string() },
        started("b", "m", &["alice"]),
        started("c", "m", &["alice"]),
        AuthenticationEvent::AuthorizationFailed { cookie: "b".to_string() },
        started("a", "m", &["alice"]),
        AuthenticationEvent::Canceled { cookie: "c".to_string() },
        started("c", "m", &["alice"]),
    ];
    for event in inputs {
        manager.handle_event(event);
        assert!(active_count(&manager, &cookies) <= 1);
    }
    assert_eq!(manager.status("a"), Some(Status::Active));
    assert_eq!(manager.status("b"), Some(Status::Resolved(Outcome::Denied)));
    assert_eq!(manager.status("c"), None);
}

#[test]
fn end_twice_is_end_once() {
    let mut manager = SessionManager::new();
    manager
        .start_authentication("c".to_string(), "m".to_string(), texts(&["alice"]))
        .unwrap();
    let first = manager.end_authentication("c", EndReason::CanceledByService);
    assert!(
        first
            == Ok(vec![
                Intent::RetractPrompt { cookie: "c".to_string() },
                Intent::ReportEnded {
                    cookie: "c".to_string(),
                    outcome: Outcome::CanceledByService
                },
            ])
    );
    let after_first = manager.session("c");
    assert_eq!(manager.status("c"), Some(Status::Resolved(Outcome::CanceledByService)));
    assert!(manager.end_authentication("c", EndReason::CanceledByService) == Ok(vec![]));
    assert_eq!(manager.session("c"), after_first);
    assert!(manager.end_authentication("c", EndReason::CanceledByOperator) == Ok(vec![]));
    assert_eq!(manager.session("c"), after_first);
    assert!(manager.end_authentication("c", EndReason::Denied) == Ok(vec![]));
    assert_eq!(manager.session("c"), after_first);
}

#[test]
fn second_cancel_event_asks_for_nothing() {
    let mut manager = SessionManager::new();
    manager.handle_event(started("c", "m", &["alice"]));
    let first = manager.handle_event(AuthenticationEvent::Canceled { cookie: "c".to_string() });
    assert!(
        first
            == vec![
                Intent::RetractPrompt { cookie: "c".to_string() },
                Intent::ReportEnded {
                    cookie: "c".to_string(),
                    outcome: Outcome::CanceledByService
                },
            ]
    );
    let second = manager.handle_event(AuthenticationEvent::Canceled { cookie: "c".to_string() });
    assert!(second.is_empty());
    let third = manager.handle_event(AuthenticationEvent::UserCanceled { cookie: "c".to_string() });
    assert!(third.is_empty());
    assert_eq!(manager.status("c"), Some(Status::Resolved(Outcome::CanceledByService)));
}

#[test]
fn cancel_wins_over_a_late_authorization() {
    let mut manager = SessionManager::new();
    manager.handle_event(started("c1", "m", &["alice"]));
    let asked = manager.handle_event(password("c1", "alice", "pw"));
    assert!(
        asked
            == vec![Intent::Verify {
                cookie: "c1".to_string(),
                identity: "alice".to_string(),
                secret: "pw".to_string(),
            }]
    );
    manager.handle_event(cancel_authentication("c1".to_string()));
    assert_eq!(manager.status("c1"), Some(Status::Resolved(Outcome::CanceledByService)));
    let late = manager.complete_verification("c1", Ok(Authorized));
    assert!(late.is_empty());
    assert_eq!(manager.status("c1"), Some(Status::Resolved(Outcome::CanceledByService)));
}

#[test]
fn operator_cancel_wins_over_a_late_authorization() {
    let mut manager = SessionManager::new();
    manager.handle_event(started("c1", "m", &["alice"]));
    manager.handle_event(password("c1", "alice", "pw"));
    manager.handle_event(AuthenticationEvent::UserCanceled { cookie: "c1".to_string() });
    assert!(manager.complete_verification("c1", Ok(Authorized)).is_empty());
    assert_eq!(manager.status("c1"), Some(Status::Resolved(Outcome::CanceledByOperator)));
}

#[test]
fn late_answer_does_not_reach_a_new_request_under_the_same_cookie() {
    let mut manager = SessionManager::new();
    manager.handle_event(started("c1", "m", &["alice"]));
    manager.handle_event(password("c1", "alice", "pw"));
    manager.handle_event(AuthenticationEvent::Canceled { cookie: "c1".to_string() });
    assert!(!manager.handle_event(started("c1", "again", &["alice"])).is_empty());
    assert!(manager.complete_verification("c1", Ok(Authorized)).is_empty());
    assert_eq!(manager.status("c1"), Some(Status::Active));
    assert_eq!(manager.session("c1").unwrap().message, "again");
}

#[test]
fn wrong_then_right_credentials_authorize() {
    let mut manager = SessionManager::new();
    let r = manager.start_authentication(
        "tok1".to_string(),
        "Authenticate to install package".to_string(),
        texts(&["alice", "root"]),
    );
    assert_eq!(r, Ok(true));

    let asked = manager.handle_event(password("tok1", "alice", "wrong"));
    assert!(
        asked
            == vec![Intent::Verify {
                cookie: "tok1".to_string(),
                identity: "alice".to_string(),
                secret: "wrong".to_string(),
            }]
    );
    assert_eq!(manager.session("tok1").unwrap().verifying, Some("alice".to_string()));
    let rejected = manager.complete_verification("tok1", Err(VerificationError::Rejected));
    assert!(rejected == vec![Intent::ShowFailure { cookie: "tok1".to_string() }]);
    assert_eq!(manager.status("tok1"), Some(Status::Active));
    assert_eq!(manager.session("tok1").unwrap().verifying, None);

    let asked = manager.handle_event(password("tok1", "alice", "correct"));
    assert!(
        asked
            == vec![Intent::Verify {
                cookie: "tok1".to_string(),
                identity: "alice".to_string(),
                secret: "correct".to_string(),
            }]
    );
    let granted = manager.complete_verification("tok1", Ok(Authorized));
    assert!(
        granted
            == vec![
                Intent::RetractPrompt { cookie: "tok1".to_string() },
                Intent::ReportAuthorized {
                    cookie: "tok1".to_string(),
                    identity: "alice".to_string()
                },
            ]
    );
    assert_eq!(manager.status("tok1"), Some(Status::Resolved(Outcome::Authorized)));

    let before = manager.session("tok1");
    assert!(manager.end_authentication("tok1", EndReason::CanceledByService) == Ok(vec![]));
    assert_eq!(manager.session("tok1"), before);
    assert_eq!(manager.status("tok1"), Some(Status::Resolved(Outcome::Authorized)));
    assert!(manager
        .handle_event(AuthenticationEvent::Canceled { cookie: "tok1".to_string() })
        .is_empty());
}

#[test]
fn operator_cancel_frees_the_prompt() {
    let mut manager = SessionManager::new();
    let shown = manager.handle_event(started("tok2", "m", &["alice"]));
    assert!(
        shown
            == vec![Intent::ShowPrompt {
                cookie: "tok2".to_string(),
                message: "m".to_string(),
                identities: texts(&["alice"]),
            }]
    );
    assert_eq!(manager.status("tok2"), Some(Status::Active));
    let ended = manager.handle_event(AuthenticationEvent::UserCanceled {
        cookie: "tok2".to_string(),
    });
    assert!(
        ended
            == vec![
                Intent::RetractPrompt { cookie: "tok2".to_string() },
                Intent::ReportEnded {
                    cookie: "tok2".to_string(),
                    outcome: Outcome::CanceledByOperator
                },
            ]
    );
    assert_eq!(manager.status("tok2"), Some(Status::Resolved(Outcome::CanceledByOperator)));
    assert_eq!(
        manager.start_authentication("tok3".to_string(), "m".to_string(), texts(&["alice"])),
        Ok(true)
    );
    assert_eq!(manager.status("tok3"), Some(Status::Active));
}

#[test]
fn unknown_cookie_is_an_error_and_changes_nothing() {
    let mut manager = SessionManager::new();
    manager
        .start_authentication("tok1".to_string(), "m".to_string(), texts(&["alice"]))
        .unwrap();
    let before = manager.session("tok1");
    assert!(
        manager.end_authentication("unknown", EndReason::CanceledByService)
            == Err(SessionError::UnknownCookie)
    );
    assert_eq!(manager.session("tok1"), before);
    assert_eq!(manager.status("unknown"), None);
    assert!(manager
        .handle_event(AuthenticationEvent::Canceled { cookie: "unknown".to_string() })
        .is_empty());
    assert_eq!(manager.session("tok1"), before);
}

#[test]
fn helper_unavailable_denies_the_request() {
    let mut manager = SessionManager::new();
    manager.handle_event(started("c", "m", &["alice"]));
    manager.handle_event(password("c", "alice", "pw"));
    let intents = manager.complete_verification("c", Err(VerificationError::HelperUnavailable));
    assert!(
        intents
            == vec![
                Intent::RetractPrompt { cookie: "c".to_string() },
                Intent::ShowFailure { cookie: "c".to_string() },
                Intent::ReportEnded { cookie: "c".to_string(), outcome: Outcome::Denied },
            ]
    );
    assert_eq!(manager.status("c"), Some(Status::Resolved(Outcome::Denied)));
}

#[test]
fn authorization_failed_event_denies_the_request() {
    let mut manager = SessionManager::new();
    manager.handle_event(started("c", "m", &["alice"]));
    let intents =
        manager.handle_event(AuthenticationEvent::AuthorizationFailed { cookie: "c".to_string() });
    assert!(
        intents
            == vec![
                Intent::RetractPrompt { cookie: "c".to_string() },
                Intent::ShowFailure { cookie: "c".to_string() },
                Intent::ReportEnded { cookie: "c".to_string(), outcome: Outcome::Denied },
            ]
    );
    assert_eq!(manager.status("c"), Some(Status::Resolved(Outcome::Denied)));
}

#[test]
fn submission_is_taken_only_when_it_can_be_checked() {
    let mut manager = SessionManager::new();
    assert_eq!(manager.submit_credentials("c", "alice"), Err(SessionError::UnknownCookie));
    manager
        .start_authentication("c".to_string(), "m".to_string(), texts(&["alice", "root"]))
        .unwrap();
    assert_eq!(manager.submit_credentials("c", "mallory"), Ok(false));
    assert_eq!(manager.session("c").unwrap().verifying, None);
    assert_eq!(manager.submit_credentials("c", "root"), Ok(true));
    assert_eq!(manager.session("c").unwrap().verifying, Some("root".to_string()));
    assert_eq!(manager.submit_credentials("c", "alice"), Ok(false));
    assert_eq!(manager.session("c").unwrap().verifying, Some("root".to_string()));
    let denied = manager.end_authentication("c", EndReason::Denied);
    assert!(
        denied
            == Ok(vec![
                Intent::RetractPrompt { cookie: "c".to_string() },
                Intent::ShowFailure { cookie: "c".to_string() },
                Intent::ReportEnded { cookie: "c".to_string(), outcome: Outcome::Denied },
            ])
    );
    assert_eq!(manager.submit_credentials("c", "alice"), Ok(false));
    assert_eq!(manager.session("c").unwrap().verifying, None);
}

#[test]
fn answer_without_a_submission_is_dropped() {
    let mut manager = SessionManager::new();
    manager.handle_event(started("c", "m", &["alice"]));
    assert!(manager.complete_verification("c", Ok(Authorized)).is_empty());
    assert_eq!(manager.status("c"), Some(Status::Active));
    assert!(manager.complete_verification("nobody", Ok(Authorized)).is_empty());
}

#[test]
fn started_without_identities_is_dropped() {
    let mut manager = SessionManager::new();
    assert!(manager.handle_event(started("c", "m", &[])).is_empty());
    assert_eq!(manager.status("c"), None);
}

#[test]
fn duplicate_and_refused_events_ask_for_nothing() {
    let mut manager = SessionManager::new();
    assert!(!manager.handle_event(started("c1", "m", &["alice"])).is_empty());
    assert!(manager.handle_event(started("c1", "m", &["alice"])).is_empty());
    assert!(manager.handle_event(started("c2", "m", &["alice"])).is_empty());
    assert!(manager.handle_event(password("c1", "mallory", "pw")).is_empty());
    assert!(manager.handle_event(password("c2", "alice", "pw")).is_empty());
    assert_eq!(manager.status("c1"), Some(Status::Active));
    assert_eq!(manager.status("c2"), None);
}

#[test]
fn acknowledge_drops_a_resolved_session_only() {
    let mut manager = SessionManager::new();
    assert_eq!(manager.acknowledge("c"), None);
    manager.handle_event(started("c", "m", &["alice"]));
    assert_eq!(manager.acknowledge("c"), None);
    assert_eq!(manager.status("c"), Some(Status::Active));
    assert!(manager.end_authentication("c", EndReason::CanceledByOperator).is_ok());
    manager.handle_event(started("d", "m", &["alice"]));
    assert_eq!(manager.acknowledge("c"), Some(Outcome::CanceledByOperator));
    assert_eq!(manager.status("c"), None);
    assert_eq!(manager.status("d"), Some(Status::Active));
    assert!(manager.end_authentication("c", EndReason::Denied) == Err(SessionError::UnknownCookie));
}

#[test]
fn resolved_session_gives_way_to_a_new_request_under_its_cookie() {
    let mut manager = SessionManager::new();
    manager.handle_event(started("c", "first", &["alice"]));
    assert!(manager.end_authentication("c", EndReason::Denied).is_ok());
    assert_eq!(
        manager.start_authentication("c".to_string(), "second".to_string(), texts(&["bob"])),
        Ok(true)
    );
    let session = manager.session("c").unwrap();
    assert_eq!(session.message, "second");
    assert_eq!(session.identities, texts(&["bob"]));
    assert_eq!(session.status, Status::Active);
}

#[test]
fn endpoint_turns_calls_into_events() {
    let begun = begin_authentication("c".to_string(), "m".to_string(), texts(&["alice", "root"]));
    assert!(begun == started("c", "m", &["alice", "root"]));
    assert_eq!(begun.cookie(), "c");
    let canceled = cancel_authentication("c".to_string());
    assert!(canceled == AuthenticationEvent::Canceled { cookie: "c".to_string() });
    assert_eq!(canceled.cookie(), "c");
}

#[test]
fn end_reason_names_its_outcome() {
    assert_eq!(EndReason::CanceledByService.outcome(), Outcome::CanceledByService);
    assert_eq!(EndReason::CanceledByOperator.outcome(), Outcome::CanceledByOperator);
    assert_eq!(EndReason::Denied.outcome(), Outcome::Denied);
    assert!(Status::Resolved(Outcome::Denied).is_resolved());
    assert!(!Status::Active.is_resolved());
    assert!(!Status::Pending.is_resolved());
}
