use site_management::db::{Answer, Query, Step};
use site_management::models::{DbError, Session, User};
use site_management::responses::Status;
use site_management::user_login::UserLogin;

fn user(id: i32) -> User {
    User { id, username: "jorn".to_string(), password: String::new(), salt: String::new(), superadmin: false }
}

#[test]
fn login_from_key() {
    let step = UserLogin::from_key("ABC".to_string());
    let step = match step {
        Step::Run(flow, Query::SessionByKey { key }) => {
            assert_eq!(key, "ABC");
            flow.resume(Answer::Session(Ok(Session { key, user_id: 4, expire_date: 99 })))
        }
        other => panic!("unexpected step {:?}", other),
    };
    match step {
        Step::Run(flow, Query::UserById { user_id }) => {
            assert_eq!(user_id, 4);
            match flow.resume(Answer::User(Ok(user(4)))) {
                Step::Done(Ok(login)) => {
                    assert_eq!(login.session.key, "ABC");
                    assert_eq!(login.user.id, 4);
                }
                other => panic!("unexpected step {:?}", other),
            }
        }
        other => panic!("unexpected step {:?}", other),
    }
}

#[test]
fn unknown_key_is_rejected() {
    match UserLogin::from_key("ABC".to_string()) {
        Step::Run(flow, _) => match flow.resume(Answer::Session(Err(DbError { message: String::new() }))) {
            Step::Done(Err((status, message))) => {
                assert_eq!(status, Status::Unauthorized);
                assert_eq!(message, "Couldn't parse session key");
            }
            other => panic!("unexpected step {:?}", other),
        },
        other => panic!("unexpected step {:?}", other),
    }
    assert_eq!(UserLogin::rejection().1, "Couldn't parse session key");
}

#[test]
fn session_of_missing_user_is_rejected() {
    let step = match UserLogin::from_key("ABC".to_string()) {
        Step::Run(flow, _) => flow.resume(Answer::Session(Ok(Session { key: "ABC".to_string(), user_id: 4, expire_date: 0 }))),
        other => panic!("unexpected step {:?}", other),
    };
    match step {
        Step::Run(flow, _) => {
            assert!(matches!(flow.resume(Answer::User(Err(DbError { message: String::new() }))), Step::Done(Err(_))));
        }
        other => panic!("unexpected step {:?}", other),
    }
}
