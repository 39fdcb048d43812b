use site_management::clock::unix_nanos_from;
use site_management::auth::{check_expiration, check_expiration_at, create_session, CreateSession};
use site_management::db::{Answer, Query, Step};
use site_management::models::{DbError, Session, User};
use site_management::responses::{LoginContext, Page};

fn user(id: i32) -> User {
    User { id, username: "jorn".to_string(), password: String::new(), salt: String::new(), superadmin: false }
}

#[test]
fn create_session_clears_then_inserts() {
    let step = create_session(&user(8));
    let flow: CreateSession = match step {
        Step::Run(flow, Query::DeleteSessionsOfUser { user_id }) => {
            assert_eq!(user_id, 8);
            flow
        }
        other => panic!("unexpected step {:?}", other),
    };
    match flow.resume(Answer::Affected(Ok(2))) {
        Step::Run(flow, Query::InsertSession { session }) => {
            assert_eq!(session.user_id, 8);
            assert_eq!(session.key.len(), 32);
            let stored = Session { key: session.key.clone(), user_id: 8, expire_date: session.expire_date };
            match flow.resume(Answer::Session(Ok(stored))) {
                Step::Done(Ok(s)) => assert_eq!(s.key, session.key),
                other => panic!("unexpected step {:?}", other),
            }
        }
        other => panic!("unexpected step {:?}", other),
    }
}

#[test]
fn create_session_refuses_foreign_row() {
    match create_session(&user(8)) {
        Step::Run(flow, _) => match flow.resume(Answer::Affected(Ok(0))) {
            Step::Run(flow, _) => {
                let foreign = Session { key: "X".to_string(), user_id: 9, expire_date: 0 };
                assert!(matches!(flow.resume(Answer::Session(Ok(foreign))), Step::Done(Err(_))));
            }
            other => panic!("unexpected step {:?}", other),
        },
        other => panic!("unexpected step {:?}", other),
    }
}

#[test]
fn expired_sessions_are_swept() {
    match check_expiration_at(77) {
        Step::Run(_, Query::DeleteExpiredSessions { now }) => assert_eq!(now, 77),
        other => panic!("unexpected step {:?}", other),
    }
    match check_expiration() {
        Step::Run(flow, Query::DeleteExpiredSessions { now }) => {
            assert!(now > 1_500_000_000_000_000_000);
            assert!(matches!(flow.resume(Answer::Affected(Ok(3))), Step::Done(Ok(3))));
        }
        other => panic!("unexpected step {:?}", other),
    }
}

#[test]
fn page_templates() {
    assert_eq!(Page::NewWebsite.template(), "pages/new_website");
    let login = Page::Login(LoginContext { title: "login".to_string(), reason: None });
    assert_eq!(login.template(), "login");
}

#[test]
fn one_session_left_after_opening() {
    let mut table = vec![
        Session { key: "A".to_string(), user_id: 8, expire_date: 1 },
        Session { key: "B".to_string(), user_id: 9, expire_date: 1 },
        Session { key: "C".to_string(), user_id: 8, expire_date: 1 },
    ];
    let mut step = create_session(&user(8));
    let opened = loop {
        match step {
            Step::Done(result) => break result.expect("opened"),
            Step::Run(flow, Query::DeleteSessionsOfUser { user_id }) => {
                let before = table.len();
                table.retain(|s| s.user_id != user_id);
                step = flow.resume(Answer::Affected(Ok(before - table.len())));
            }
            Step::Run(flow, Query::InsertSession { session }) => {
                let row = Session { key: session.key, user_id: session.user_id, expire_date: session.expire_date };
                table.push(row.clone());
                step = flow.resume(Answer::Session(Ok(row)));
            }
            Step::Run(_, other) => panic!("unexpected query {:?}", other),
        }
    };
    let mine: Vec<&Session> = table.iter().filter(|s| s.user_id == 8).collect();
    assert_eq!(mine.len(), 1);
    assert_eq!(mine[0].key, opened.key);
    assert_eq!(table.iter().filter(|s| s.user_id == 9).count(), 1);
}

#[test]
fn create_session_passes_database_errors_on() {
    let failure = || DbError { message: "connection lost".to_string() };
    match create_session(&user(8)) {
        Step::Run(flow, _) => match flow.resume(Answer::Affected(Err(failure()))) {
            Step::Done(Err(e)) => assert_eq!(e.message, "connection lost"),
            other => panic!("unexpected step {:?}", other),
        },
        other => panic!("unexpected step {:?}", other),
    }
    match create_session(&user(8)) {
        Step::Run(flow, _) => match flow.resume(Answer::Affected(Ok(1))) {
            Step::Run(flow, _) => match flow.resume(Answer::Session(Err(failure()))) {
                Step::Done(Err(e)) => assert_eq!(e.message, "connection lost"),
                other => panic!("unexpected step {:?}", other),
            },
            other => panic!("unexpected step {:?}", other),
        },
        other => panic!("unexpected step {:?}", other),
    }
    assert_eq!(DbError::unexpected().message, "unexpected answer");
}

#[test]
fn clock_readings_before_the_epoch() {
    assert_eq!(unix_nanos_from(false, 5), 5);
    assert_eq!(unix_nanos_from(true, 5), -5);
    assert_eq!(unix_nanos_from(true, 0), 0);
    assert_eq!(unix_nanos_from(false, u128::MAX), i128::MAX);
    assert_eq!(unix_nanos_from(true, u128::MAX), i128::MIN);
}
