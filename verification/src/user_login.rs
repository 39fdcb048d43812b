//! The logged-in user of a request, found from the session key in its cookie.

use vstd::prelude::*;
use crate::db::{answers, Answer, Query, Step};
use crate::models::{Session, User};
use crate::responses::Status;

verus! {

/// A request's login: its session and the user that the session belongs to.
#[derive(Clone, Debug)]
pub struct UserLogin {
    pub session: Session,
    pub user: User,
}

/// The answer to a request whose login cannot be established.
pub open spec fn is_login_rejection(failure: (Status, String)) -> bool {
    &&& failure.0 == Status::Unauthorized
    &&& failure.1@ == "Couldn't parse session key"@
}

/// What establishing a login ends with.
pub type LoginOutcome = Result<UserLogin, (Status, String)>;

/// `step` ends the lookup with a rejection.
pub open spec fn is_rejected(step: Step<FromKey, LoginOutcome>) -> bool {
    step matches Step::Done(Err(failure)) && is_login_rejection(failure)
}

/// Finding the login of a session key: first the session with that key, then
/// the user it belongs to.
#[derive(Debug)]
pub enum FromKey {
    LoadingSession { key: String },
    LoadingUser { session: Session },
}

impl FromKey {
    /// `answer` is what the query that this state waits for gets.
    pub open spec fn expects(self, answer: Answer) -> bool {
        match self {
            FromKey::LoadingSession { .. } => answer is Session,
            FromKey::LoadingUser { .. } => answer is User,
        }
    }

    /// The transition from this state on `answer` to `step`.
    pub open spec fn next(self, answer: Answer, step: Step<FromKey, LoginOutcome>) -> bool {
        match self {
            FromKey::LoadingSession { key } => match answer {
                Answer::Session(Ok(session)) => if session.key@ == key@ {
                    step == Step::<FromKey, LoginOutcome>::Run(
                        FromKey::LoadingUser { session: session },
                        Query::UserById { user_id: session.user_id },
                    )
                } else {
                    is_rejected(step)
                },
                _ => is_rejected(step),
            },
            FromKey::LoadingUser { session } => match answer {
                Answer::User(Ok(user)) => if user.id == session.user_id {
                    step == Step::<FromKey, LoginOutcome>::Done(Ok(UserLogin { session: session, user: user }))
                } else {
                    is_rejected(step)
                },
                _ => is_rejected(step),
            },
        }
    }

    /// Continues the lookup with the answer to the last query.
    pub fn resume(self, answer: Answer) -> (step: Step<FromKey, LoginOutcome>)
        requires
            self.expects(answer),
        ensures
            step matches Step::Run(next, query) ==> forall|a: Answer| #[trigger] answers(query, a) ==> next.expects(a),
            self.next(answer, step),
    {
        match self {
            FromKey::LoadingSession { key } => match answer {
                Answer::Session(Ok(session)) => {
                    if session.key == key {
                        let user_id = session.user_id;
                        Step::Run(FromKey::LoadingUser { session: session }, Query::UserById { user_id: user_id })
                    } else {
                        Step::Done(Err(UserLogin::rejection()))
                    }
                },
                _ => Step::Done(Err(UserLogin::rejection())),
            },
            FromKey::LoadingUser { session } => match answer {
                Answer::User(Ok(user)) => {
                    if user.id == session.user_id {
                        Step::Done(Ok(UserLogin { session: session, user: user }))
                    } else {
                        Step::Done(Err(UserLogin::rejection()))
                    }
                },
                _ => Step::Done(Err(UserLogin::rejection())),
            },
        }
    }
}

impl UserLogin {
    /// The failure that a request without a valid login gets: unauthorized,
    /// "Couldn't parse session key".
    pub fn rejection() -> (failure: (Status, String))
        ensures
            is_login_rejection(failure),
    {
        (Status::Unauthorized, String::from_str("Couldn't parse session key"))
    }

    /// Starts finding the login of `key`: the first query looks up the session
    /// with that key.
    pub fn from_key(key: String) -> (step: Step<FromKey, LoginOutcome>)
        ensures
            step matches Step::Run(next, query) ==> forall|a: Answer| #[trigger] answers(query, a) ==> next.expects(a),
            step == Step::<FromKey, LoginOutcome>::Run(
                FromKey::LoadingSession { key: key },
                Query::SessionByKey { key: key },
            ),
    {
        let lookup = key.clone();
        Step::Run(FromKey::LoadingSession { key: key }, Query::SessionByKey { key: lookup })
    }
}

/// A login that the lookup of `key` establishes is that of the session with
/// that key, and of the user that the session belongs to: whatever the
/// database answers, no other login comes out.
pub proof fn login_matches_key(
    key: String,
    first: FromKey,
    session_answer: Answer,
    second: FromKey,
    user_answer: Answer,
    login: UserLogin,
)
    requires
        first == (FromKey::LoadingSession { key: key }),
        first.next(session_answer, Step::Run(second, Query::UserById { user_id: second->session.user_id })),
        second.next(user_answer, Step::Done(Ok(login))),
    ensures
        login.session.key@ == key@,
        login.user.id == login.session.user_id,
{
}

} // verus!
