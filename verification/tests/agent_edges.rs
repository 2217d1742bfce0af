use cutekit::helper::{classify_reply, verdict, HelperReply};
use cutekit::session::{Authorized, VerificationError};
use cutekit::subject::Subject;

#[test]
fn helper_lines_are_told_apart_by_their_beginning() {
    assert_eq!(classify_reply("PAM_PROMPT_ECHO_OFF Password: "), HelperReply::AsksForSecret);
    assert_eq!(classify_reply("PAM_PROMPT_ECHO_ON Login: "), HelperReply::AsksForSecret);
    assert_eq!(classify_reply("SUCCESS"), HelperReply::Succeeded);
    assert_eq!(classify_reply("FAILURE"), HelperReply::Failed);
    assert_eq!(classify_reply("FAILURE: nope"), HelperReply::Failed);
    assert_eq!(classify_reply("PAM_ERROR_MSG Sorry"), HelperReply::Other);
    assert_eq!(classify_reply("PAM_TEXT_INFO hello"), HelperReply::Other);
    assert_eq!(classify_reply(" SUCCESS"), HelperReply::Other);
    assert_eq!(classify_reply("success"), HelperReply::Other);
    assert_eq!(classify_reply(""), HelperReply::Other);
}

#[test]
fn helper_run_comes_to_one_of_three() {
    assert_eq!(verdict(Some(HelperReply::Succeeded)), Ok(Authorized));
    assert_eq!(verdict(Some(HelperReply::Failed)), Err(VerificationError::Rejected));
    assert_eq!(verdict(None), Err(VerificationError::HelperUnavailable));
    assert_eq!(
        verdict(Some(HelperReply::AsksForSecret)),
        Err(VerificationError::HelperUnavailable)
    );
    assert_eq!(verdict(Some(HelperReply::Other)), Err(VerificationError::HelperUnavailable));
}

#[test]
fn subject_keeps_what_it_was_made_with() {
    let subject = Subject::new(
        "unix-process".to_string(),
        vec![
            ("pid".to_string(), "4711".to_string()),
            ("start-time".to_string(), "0".to_string()),
        ],
    );
    assert_eq!(subject.kind(), "unix-process");
    assert_eq!(
        subject.details(),
        &vec![
            ("pid".to_string(), "4711".to_string()),
            ("start-time".to_string(), "0".to_string()),
        ]
    );
}

#[test]
fn session_subject_names_the_session() {
    let subject = Subject::unix_session("c2".to_string());
    assert_eq!(subject.kind(), "unix-session");
    assert_eq!(subject.details(), &vec![("session-id".to_string(), "c2".to_string())]);
    assert_eq!(subject, Subject::new(
        "unix-session".to_string(),
        vec![("session-id".to_string(), "c2".to_string())],
    ));
}
