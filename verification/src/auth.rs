//! Accounts and signing in: creating a user, checking a user's password,
//! and opening a session for them.

use vstd::prelude::*;
use vstd::utf8::encode_utf8;
use crate::argon2::{argon2_accepts, password_hash};
use crate::clock::now_unix_nanos;
use crate::db::{answers, sessions_after, stored_session, Answer, Query, Step};
use crate::models::{is_expired, is_salt_char, session_expiry, session_length_nanos, DbError, NewSession, NewUser, Session, User, SALT_LENGTH, SESSION_KEY_LENGTH};
use crate::random::is_ascii_alphanumeric;
use crate::responses::{Reply, Status};

verus! {

/// `session` is a session that `NewSession::new(user_id)` can give: it
/// belongs to `user_id`, has a key of 32 characters of `A-Za-z0-9`, and
/// expires `SESSION_LENGTH` seconds after the instant it was opened.
pub open spec fn is_fresh_session(session: NewSession, user_id: i32) -> bool {
    &&& session.user_id == user_id
    &&& session.key@.len() == SESSION_KEY_LENGTH
    &&& forall|i: int| 0 <= i < session.key@.len() ==> is_ascii_alphanumeric(#[trigger] session.key@[i])
    &&& exists|now: i128| session.expire_date == #[trigger] session_expiry(now)
}

/// Opening a session for a user: first the user's other sessions are
/// deleted, then a fresh session is inserted.
#[derive(Debug)]
pub enum CreateSession {
    Clearing { user_id: i32 },
    Inserting { user_id: i32 },
}

/// Starts opening a session for `user`: the first query deletes the user's
/// sessions.
pub fn create_session(user: &User) -> (step: Step<CreateSession, Result<Session, DbError>>)
    ensures
        step matches Step::Run(next, query) ==> forall|a: Answer| #[trigger] answers(query, a) ==> next.expects(a),
        step == Step::<CreateSession, Result<Session, DbError>>::Run(
            CreateSession::Clearing { user_id: user.id },
            Query::DeleteSessionsOfUser { user_id: user.id },
        ),
{
    Step::Run(CreateSession::Clearing { user_id: user.id }, Query::DeleteSessionsOfUser { user_id: user.id })
}

impl CreateSession {
    /// The user that the session is opened for.
    pub open spec fn owner(self) -> i32 {
        match self {
            CreateSession::Clearing { user_id } => user_id,
            CreateSession::Inserting { user_id } => user_id,
        }
    }

    /// `answer` is what the query that this state waits for gets.
    pub open spec fn expects(self, answer: Answer) -> bool {
        match self {
            CreateSession::Clearing { .. } => answer is Affected,
            CreateSession::Inserting { .. } => answer is Session,
        }
    }

    /// The transition from this state on `answer` to `step`.
    pub open spec fn next(self, answer: Answer, step: Step<CreateSession, Result<Session, DbError>>) -> bool {
        match self {
            CreateSession::Clearing { user_id } => match answer {
                Answer::Affected(Ok(_)) => match step {
                    Step::Run(state, Query::InsertSession { session }) => {
                        &&& state == (CreateSession::Inserting { user_id: user_id })
                        &&& is_fresh_session(session, user_id)
                    },
                    _ => false,
                },
                Answer::Affected(Err(e)) => step == Step::<CreateSession, Result<Session, DbError>>::Done(Err(e)),
                _ => false,
            },
            CreateSession::Inserting { user_id } => match answer {
                Answer::Session(Ok(session)) => if session.user_id == user_id {
                    step == Step::<CreateSession, Result<Session, DbError>>::Done(Ok(session))
                } else {
                    step matches Step::Done(Err(_))
                },
                Answer::Session(Err(e)) => step == Step::<CreateSession, Result<Session, DbError>>::Done(Err(e)),
                _ => false,
            },
        }
    }

    /// Continues opening the session with the answer to the last query.
    pub fn resume(self, answer: Answer) -> (step: Step<CreateSession, Result<Session, DbError>>)
        requires
            self.expects(answer),
        ensures
            step matches Step::Run(next, query) ==> forall|a: Answer| #[trigger] answers(query, a) ==> next.expects(a),
            self.next(answer, step),
    {
        match self {
            CreateSession::Clearing { user_id } => match answer {
                Answer::Affected(Ok(_)) => {
                    let session = NewSession::new(user_id);
                    Step::Run(CreateSession::Inserting { user_id: user_id }, Query::InsertSession { session: session })
                },
                Answer::Affected(Err(e)) => Step::Done(Err(e)),
                _ => Step::Done(Err(DbError::unexpected())),
            },
            CreateSession::Inserting { user_id } => match answer {
                Answer::Session(Ok(session)) => {
                    if session.user_id == user_id {
                        Step::Done(Ok(session))
                    } else {
                        Step::Done(Err(DbError::unexpected()))
                    }
                },
                Answer::Session(Err(e)) => Step::Done(Err(e)),
                _ => Step::Done(Err(DbError::unexpected())),
            },
        }
    }
}

/// Signing in with a user name and a password: the user with that name is
/// looked up, the password is checked against the stored hash, and on a
/// match a session is opened for that user.
#[derive(Debug)]
pub enum Authentication<'a> {
    LookingUp { username: &'a str, password: &'a str },
    /// The password of `user` was checked; `session` opens the session.
    Opening { username: &'a str, password: &'a str, user: User, session: CreateSession },
}

/// Starts signing in as `name` with `password`: the first query looks up the
/// user with that name.
pub fn authenticate_user<'a>(name: &'a str, password: &'a str) -> (step: Step<Authentication<'a>, Option<Session>>)
    ensures
        step matches Step::Run(next, query) ==> forall|a: Answer| #[trigger] answers(query, a) ==> next.expects(a),
        match step {
            Step::Run(state, Query::UserByName { username }) => {
                &&& state == (Authentication::LookingUp { username: name, password: password })
                &&& username@ == name@
            },
            _ => false,
        },
{
    Step::Run(
        Authentication::LookingUp { username: name, password: password },
        Query::UserByName { username: String::from_str(name) },
    )
}

/// `user` has the name `username` and `password` is their password: its
/// hash under the user's salt is the stored hash.
pub open spec fn password_accepted(user: User, username: Seq<char>, password: Seq<char>) -> bool {
    &&& user.username@ == username
    &&& user.password@ == password_hash(password, user.salt@)
}

impl<'a> Authentication<'a> {
    /// A session is only ever opened for a user whose name and password were
    /// checked.
    pub open spec fn checked(self) -> bool {
        match self {
            Authentication::LookingUp { .. } => true,
            Authentication::Opening { username, password, user, session } => {
                &&& password_accepted(user, username@, password@)
                &&& session.owner() == user.id
            },
        }
    }

    /// `answer` is what the query that this state waits for gets.
    pub open spec fn expects(self, answer: Answer) -> bool {
        match self {
            Authentication::LookingUp { .. } => answer is User,
            Authentication::Opening { session, .. } => session.expects(answer),
        }
    }

    /// When `answer` is the user to check, the password can be hashed with
    /// that user's salt (hashing fails on a salt of fewer than 8 bytes).
    pub open spec fn hashable(self, answer: Answer) -> bool {
        match self {
            Authentication::LookingUp { username, password } => match answer {
                Answer::User(Ok(user)) => user.username@ == username@ ==> argon2_accepts(password@, user.salt@),
                _ => true,
            },
            Authentication::Opening { .. } => true,
        }
    }

    /// The transition from this state on `answer` to `step`.
    pub open spec fn next(self, answer: Answer, step: Step<Authentication<'a>, Option<Session>>) -> bool {
        match self {
            Authentication::LookingUp { username, password } => match answer {
                Answer::User(Ok(user)) => if password_accepted(user, username@, password@) {
                    match step {
                        Step::Run(Authentication::Opening { username: n, password: p, user: u, session }, query) => {
                            &&& n == username
                            &&& p == password
                            &&& u == user
                            &&& query == (Query::DeleteSessionsOfUser { user_id: user.id })
                            &&& session == (CreateSession::Clearing { user_id: user.id })
                        },
                        _ => false,
                    }
                } else {
                    step == Step::<Authentication<'a>, Option<Session>>::Done(None)
                },
                _ => step == Step::<Authentication<'a>, Option<Session>>::Done(None),
            },
            Authentication::Opening { username, password, user, session } => exists|inner: Step<CreateSession, Result<Session, DbError>>| {
                &&& #[trigger] session.next(answer, inner)
                &&& match inner {
                    Step::Run(state, query) => step == Step::<Authentication<'a>, Option<Session>>::Run(
                        Authentication::Opening { username: username, password: password, user: user, session: state },
                        query,
                    ),
                    Step::Done(Ok(opened)) => step == Step::<Authentication<'a>, Option<Session>>::Done(Some(opened)),
                    Step::Done(Err(_)) => step == Step::<Authentication<'a>, Option<Session>>::Done(None),
                }
            },
        }
    }

    /// Continues signing in with the answer to the last query.
    pub fn resume(self, answer: Answer) -> (step: Step<Authentication<'a>, Option<Session>>)
        requires
            self.checked(),
            self.expects(answer),
            self.hashable(answer),
        ensures
            step matches Step::Run(next, query) ==> forall|a: Answer| #[trigger] answers(query, a) ==> next.expects(a),
            self.next(answer, step),
            step matches Step::Run(state, _) ==> state.checked(),
    {
        match self {
            Authentication::LookingUp { username, password } => match answer {
                Answer::User(Ok(user)) => {
                    let same_name = user.username == String::from_str(username);
                    if same_name && user.password_matches(password) {
                        let opening = create_session(&user);
                        match opening {
                            Step::Run(session, query) => Step::Run(
                                Authentication::Opening { username: username, password: password, user: user, session: session },
                                query,
                            ),
                            Step::Done(_) => Step::Done(None),
                        }
                    } else {
                        Step::Done(None)
                    }
                },
                _ => Step::Done(None),
            },
            Authentication::Opening { username, password, user, session } => {
                let inner = session.resume(answer);
                match inner {
                    Step::Run(state, query) => Step::Run(
                        Authentication::Opening { username: username, password: password, user: user, session: state },
                        query,
                    ),
                    Step::Done(Ok(opened)) => Step::Done(Some(opened)),
                    Step::Done(Err(_)) => Step::Done(None),
                }
            },
        }
    }
}

/// `step` inserts the account that `NewUser::new(name, password)` makes:
/// the name, a salt of 64 characters of `A-Z0-9`, and the password's hash
/// under that salt.
pub open spec fn is_sign_up(name: Seq<char>, password: Seq<char>, step: Step<CreateUser, Result<User, DbError>>) -> bool {
    match step {
        Step::Run(_, Query::InsertUser { username, password: hash, salt }) => {
            &&& username@ == name
            &&& salt@.len() == SALT_LENGTH
            &&& forall|i: int| 0 <= i < salt@.len() ==> is_salt_char(#[trigger] salt@[i])
            &&& hash@ == password_hash(password, salt@)
        },
        _ => false,
    }
}

/// Creating an account: the new user is inserted.
#[derive(Debug)]
pub struct CreateUser;

/// Starts creating the account `name` with password `password`: the query
/// inserts it with a fresh salt and the password's hash.
pub fn create_user(name: &str, password: &str) -> (step: Step<CreateUser, Result<User, DbError>>)
    requires
        encode_utf8(password@).len() <= 0xffff_ffff,
    ensures
        step matches Step::Run(next, query) ==> forall|a: Answer| #[trigger] answers(query, a) ==> next.expects(a),
        is_sign_up(name@, password@, step),
{
    let new_user = NewUser::new(name, password);
    let NewUser { username, password: hash, salt } = new_user;
    Step::Run(CreateUser, Query::InsertUser { username: String::from_str(username), password: hash, salt: salt })
}

impl CreateUser {
    /// `answer` is what the query that this state waits for gets.
    pub open spec fn expects(self, answer: Answer) -> bool {
        answer is User
    }

    /// Finishes with the stored user, or the failure of the insert.
    pub fn resume(self, answer: Answer) -> (step: Step<CreateUser, Result<User, DbError>>)
        requires
            self.expects(answer),
        ensures
            answer matches Answer::User(result) && step == Step::<CreateUser, Result<User, DbError>>::Done(result),
    {
        match answer {
            Answer::User(result) => Step::Done(result),
            _ => Step::Done(Err(DbError::unexpected())),
        }
    }
}

/// Removing expired sessions, which the service does once a minute.
#[derive(Debug)]
pub struct CheckExpiration;

/// Starts removing the sessions that have expired by the time of the call:
/// the query deletes them (see `check_expiration_at`).
pub fn check_expiration() -> (step: Step<CheckExpiration, Result<usize, DbError>>)
    ensures
        step matches Step::Run(next, query) ==> forall|a: Answer| #[trigger] answers(query, a) ==> next.expects(a),
        step matches Step::Run(CheckExpiration, Query::DeleteExpiredSessions { .. }),
{
    check_expiration_at(now_unix_nanos())
}

/// Starts removing the sessions that have expired at `now` (nanoseconds
/// since the UNIX epoch): the query deletes them.
pub fn check_expiration_at(now: i128) -> (step: Step<CheckExpiration, Result<usize, DbError>>)
    ensures
        step matches Step::Run(next, query) ==> forall|a: Answer| #[trigger] answers(query, a) ==> next.expects(a),
        step == Step::<CheckExpiration, Result<usize, DbError>>::Run(CheckExpiration, Query::DeleteExpiredSessions { now: now }),
{
    Step::Run(CheckExpiration, Query::DeleteExpiredSessions { now: now })
}

impl CheckExpiration {
    /// `answer` is what the query that this state waits for gets.
    pub open spec fn expects(self, answer: Answer) -> bool {
        answer is Affected
    }

    /// Finishes with the number of sessions removed, or the failure.
    pub fn resume(self, answer: Answer) -> (step: Step<CheckExpiration, Result<usize, DbError>>)
        requires
            self.expects(answer),
        ensures
            answer matches Answer::Affected(result) && step == Step::<CheckExpiration, Result<usize, DbError>>::Done(result),
    {
        match answer {
            Answer::Affected(result) => Step::Done(result),
            _ => Step::Done(Err(DbError::unexpected())),
        }
    }
}

/// Answers a sign-in attempt: with the session that authentication opened,
/// set the session cookie and go to `/manage`; without one, unauthorized.
pub fn auth(session: Option<Session>) -> (reply: Reply)
    ensures
        match session {
            Some(s) => reply == Reply::SignIn(s.key),
            None => reply == Reply::Fail(Status::Unauthorized),
        },
{
    match session {
        Some(s) => Reply::SignIn(s.key),
        None => Reply::Fail(Status::Unauthorized),
    }
}


/// An account created with `create_user(name, password)` and stored as it
/// was inserted signs in with that name and that password: the user is
/// accepted and a session is opened for them.
pub proof fn signed_up_user_signs_in<'a>(
    name: &'a str,
    password: &'a str,
    sign_up: Step<CreateUser, Result<User, DbError>>,
    stored: User,
    step: Step<Authentication<'a>, Option<Session>>,
)
    requires
        is_sign_up(name@, password@, sign_up),
        sign_up matches Step::Run(_, Query::InsertUser { username, password: hash, salt })
            && stored.username@ == username@ && stored.password@ == hash@ && stored.salt@ == salt@,
        (Authentication::LookingUp { username: name, password: password }).next(Answer::User(Ok(stored)), step),
    ensures
        step matches Step::Run(_, Query::DeleteSessionsOfUser { user_id }) && user_id == stored.id,
{
}

/// Whatever sessions the table holds, the two writes that opening a session
/// for `user` asks for (deleting the user's sessions, then inserting the new
/// one) leave exactly one session of that user: the one inserted.
pub proof fn one_session_per_user_after_create(
    user: User,
    sessions: Seq<Session>,
    deleted: usize,
    inserting: CreateSession,
    session: NewSession,
)
    requires
        (CreateSession::Clearing { user_id: user.id }).next(
            Answer::Affected(Ok(deleted)),
            Step::Run(inserting, Query::InsertSession { session: session }),
        ),
    ensures
        sessions_after(
            sessions_after(sessions, Query::DeleteSessionsOfUser { user_id: user.id }),
            Query::InsertSession { session: session },
        ).filter(|s: Session| s.user_id == user.id) == seq![stored_session(session)],
{
    let others = sessions.filter(|s: Session| s.user_id != user.id);
    let mine = |s: Session| s.user_id == user.id;
    sessions.filter_lemma(|s: Session| s.user_id != user.id);
    assert(others.all(|x: Session| !mine(x)));
    others.lemma_all_neg_filter_empty(mine);
    others.lemma_filter_push(stored_session(session), mine);
    assert(others.push(stored_session(session)).filter(mine) =~= seq![stored_session(session)]);
}

/// A password whose hash under the user's salt differs from the stored hash
/// is refused, and no query follows: no session is opened.
pub proof fn wrong_password_is_refused<'a>(
    stored: User,
    name: &'a str,
    password: &'a str,
    step: Step<Authentication<'a>, Option<Session>>,
)
    requires
        stored.password@ != password_hash(password@, stored.salt@),
        (Authentication::LookingUp { username: name, password: password }).next(Answer::User(Ok(stored)), step),
    ensures
        step == Step::<Authentication<'a>, Option<Session>>::Done(None),
{
}

/// Whatever the database answers, a session that signing in yields belongs
/// to a user with the name given whose stored hash is that of the password
/// given.
pub proof fn opened_session_is_for_checked_user<'a>(
    state: Authentication<'a>,
    answer: Answer,
    session: Session,
)
    requires
        state.checked(),
        state.next(answer, Step::Done(Some(session))),
    ensures
        state matches Authentication::Opening { username, password, user, .. }
            && password_accepted(user, username@, password@) && session.user_id == user.id,
{
    if let Authentication::Opening { username, password, user, session: opening } = state {
        let inner = choose|inner: Step<CreateSession, Result<Session, DbError>>| #[trigger] opening.next(answer, inner)
            && match inner {
                Step::Run(next_state, query) => Step::<Authentication<'a>, Option<Session>>::Done(Some(session))
                    == Step::<Authentication<'a>, Option<Session>>::Run(
                    Authentication::Opening { username: username, password: password, user: user, session: next_state },
                    query,
                ),
                Step::Done(Ok(opened)) => Step::<Authentication<'a>, Option<Session>>::Done(Some(session))
                    == Step::<Authentication<'a>, Option<Session>>::Done(Some(opened)),
                Step::Done(Err(_)) => Step::<Authentication<'a>, Option<Session>>::Done(Some(session))
                    == Step::<Authentication<'a>, Option<Session>>::Done(None),
            };
        assert(inner == Step::<CreateSession, Result<Session, DbError>>::Done(Ok(session)));
    }
}


/// A sweep at `now` removes a session exactly when it has expired at `now`:
/// a session of the table whose expiry is at or after `now` is still there
/// afterwards, and one whose expiry is before `now` is gone.
pub proof fn sweep_removes_exactly_expired(now: i128, sessions: Seq<Session>, step: Step<CheckExpiration, Result<usize, DbError>>, session: Session)
    requires
        step == Step::<CheckExpiration, Result<usize, DbError>>::Run(CheckExpiration, Query::DeleteExpiredSessions { now: now }),
        sessions.contains(session),
    ensures
        step matches Step::Run(_, query) && (sessions_after(sessions, query).contains(session) <==> session.expire_date >= now),
{
    let live = |x: Session| !is_expired(x.expire_date, now);
    let kept = sessions.filter(live);
    sessions.filter_lemma(live);
    let k = choose|k: int| 0 <= k < sessions.len() && sessions[k] == session;
    assert(sessions[k] == session);
    if kept.contains(session) {
        let j = choose|j: int| 0 <= j < kept.len() && kept[j] == session;
        assert(live(kept[j]));
    }
    assert(sessions_after(sessions, Query::DeleteExpiredSessions { now: now }) == kept);
}

/// A session opened at `t` (see `NewSession::issued_at`) is kept by every
/// sweep up to 48 hours after `t`, and removed by every sweep later than
/// that.
pub proof fn session_survives_sweeps_for_its_length(
    t: i128,
    sweep_at: i128,
    session: NewSession,
    sessions: Seq<Session>,
)
    requires
        session.expire_date == session_expiry(t),
        t + session_length_nanos() <= i128::MAX,
        sessions.contains(stored_session(session)),
    ensures
        sweep_at <= t + 172_800_000_000_000 ==> sessions_after(sessions, Query::DeleteExpiredSessions { now: sweep_at })
            .contains(stored_session(session)),
        sweep_at > t + 172_800_000_000_000 ==> !sessions_after(sessions, Query::DeleteExpiredSessions { now: sweep_at })
            .contains(stored_session(session)),
{
    sweep_removes_exactly_expired(
        sweep_at,
        sessions,
        Step::Run(CheckExpiration, Query::DeleteExpiredSessions { now: sweep_at }),
        stored_session(session),
    );
}

} // verus!
