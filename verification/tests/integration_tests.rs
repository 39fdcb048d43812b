use site_management::auth::{authenticate_user, create_user, Authentication};
use site_management::db::{Answer, Query, Step};
use site_management::models::{DbError, Session, User};

fn stored_user(id: i32, step: Step<site_management::auth::CreateUser, Result<User, DbError>>) -> User {
    match step {
        Step::Run(_, Query::InsertUser { username, password, salt }) => User { id, username, password, salt, superadmin: false },
        other => panic!("unexpected step {:?}", other),
    }
}

#[test]
fn test_create_user() {
    match create_user("jorn", "slurp") {
        Step::Run(flow, Query::InsertUser { username, password, salt }) => {
            assert_eq!(username, "jorn");
            assert_eq!(salt.len(), 64);
            assert_eq!(password.len(), 64);
            let stored = User { id: 1, username, password, salt, superadmin: false };
            match flow.resume(Answer::User(Ok(stored))) {
                Step::Done(Ok(u)) => println!("Created user\n{:#?}", u),
                Step::Done(Err(e)) => println!("ERROR: Failed to create user: {:?}", e),
                Step::Run(_, q) => panic!("unexpected query {:?}", q),
            }
        }
        other => panic!("unexpected step {:?}", other),
    }
}

fn run_authentication(user: &User, name: &str, password: &str) -> Option<Session> {
    let mut step = authenticate_user(name, password);
    loop {
        match step {
            Step::Done(result) => return result,
            Step::Run(flow, query) => {
                let answer = match query {
                    Query::UserByName { username } => {
                        if username == user.username {
                            Answer::User(Ok(user.clone()))
                        } else {
                            Answer::User(Err(DbError { message: String::new() }))
                        }
                    }
                    Query::DeleteSessionsOfUser { .. } => Answer::Affected(Ok(0)),
                    Query::InsertSession { session } => Answer::Session(Ok(Session {
                        key: session.key,
                        user_id: session.user_id,
                        expire_date: session.expire_date,
                    })),
                    other => panic!("unexpected query {:?}", other),
                };
                let flow: Authentication = flow;
                step = flow.resume(answer);
            }
        }
    }
}

#[test]
fn test_authenticate() {
    let user = stored_user(7, create_user("jorn", "slurp"));
    match run_authentication(&user, "jorn", "slurp") {
        Some(u) => println!("Signed in as:\n{:#?}\n\n{:#?}", u, user),
        None => panic!("Couldn't sign in"),
    }
}

#[test]
fn authenticate_opens_session_for_user() {
    let user = stored_user(7, create_user("jorn", "slurp"));
    let session = run_authentication(&user, "jorn", "slurp").expect("signed in");
    assert_eq!(session.user_id, 7);
    assert_eq!(session.key.len(), 32);
    assert!(session.key.chars().all(|c| c.is_ascii_alphanumeric()));
}

#[test]
fn authenticate_refuses_wrong_password() {
    let user = stored_user(7, create_user("jorn", "slurp"));
    assert!(run_authentication(&user, "jorn", "salade").is_none());
}

#[test]
fn authenticate_refuses_unknown_user() {
    let user = stored_user(7, create_user("jorn", "slurp"));
    assert!(run_authentication(&user, "piet", "slurp").is_none());
}

#[test]
fn authenticate_gives_up_when_sessions_cannot_be_cleared() {
    let user = stored_user(3, create_user("jorn", "slurp"));
    let step = authenticate_user("jorn", "slurp");
    let step = match step {
        Step::Run(flow, Query::UserByName { .. }) => flow.resume(Answer::User(Ok(user.clone()))),
        other => panic!("unexpected step {:?}", other),
    };
    match step {
        Step::Run(flow, Query::DeleteSessionsOfUser { user_id }) => {
            assert_eq!(user_id, 3);
            assert!(matches!(flow.resume(Answer::Affected(Err(DbError { message: String::new() }))), Step::Done(None)));
        }
        other => panic!("unexpected step {:?}", other),
    }
}
