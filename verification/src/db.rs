//! The conversation between request handlers and the database. A handler is
//! a state machine: it asks for one `Query` at a time, the caller runs it and
//! hands back the `Answer`, and the handler either asks the next query or is
//! done with its result.

use vstd::prelude::*;
use crate::models::{is_expired, DbError, NewSession, Session, User, UserWebsite, Website};

verus! {

/// A database operation that a handler needs performed.
#[derive(Debug)]
pub enum Query {
    /// The membership of a user in a website, joined with the website.
    MembershipOf { user_id: i32, website_id: i32 },
    /// The website with this id.
    WebsiteById { website_id: i32 },
    /// The memberships of a website, each joined with its user.
    UsersOfWebsite { website_id: i32 },
    /// The memberships of a user, each joined with its website.
    WebsitesOfUser { user_id: i32 },
    /// The first user with this name.
    UserByName { username: String },
    /// The user with this id.
    UserById { user_id: i32 },
    /// The first session with this key.
    SessionByKey { key: String },
    /// Insert a user with this name, password hash and salt, returning the
    /// stored row.
    InsertUser { username: String, password: String, salt: String },
    /// Insert this membership.
    InsertMembership { membership: UserWebsite },
    /// Insert a website with this name, returning the stored row.
    InsertWebsite { name: String },
    /// Delete every session of this user.
    DeleteSessionsOfUser { user_id: i32 },
    /// Insert this session, returning the stored row.
    InsertSession { session: NewSession },
    /// Delete the sessions with this key.
    DeleteSessionByKey { key: String },
    /// Delete every session that has expired at `now` (see
    /// `models::is_expired`).
    DeleteExpiredSessions { now: i128 },
}

/// What the database answered to a `Query`.
#[derive(Debug)]
pub enum Answer {
    Membership(Result<(UserWebsite, Website), DbError>),
    Website(Result<Website, DbError>),
    Members(Result<Vec<(UserWebsite, User)>, DbError>),
    Websites(Result<Vec<(UserWebsite, Website)>, DbError>),
    User(Result<User, DbError>),
    Session(Result<Session, DbError>),
    /// The number of rows that an insert or a delete affected.
    Affected(Result<usize, DbError>),
}

/// The row that inserting `session` stores.
pub open spec fn stored_session(session: NewSession) -> Session {
    Session { key: session.key, user_id: session.user_id, expire_date: session.expire_date }
}

/// The sessions table after `q` runs on a table holding `sessions`, in
/// insertion order; queries that do not write sessions leave it as it is.
pub open spec fn sessions_after(sessions: Seq<Session>, q: Query) -> Seq<Session> {
    match q {
        Query::DeleteSessionsOfUser { user_id } => sessions.filter(|s: Session| s.user_id != user_id),
        Query::DeleteSessionByKey { key } => sessions.filter(|s: Session| s.key@ != key@),
        Query::DeleteExpiredSessions { now } => sessions.filter(|s: Session| !is_expired(s.expire_date, now)),
        Query::InsertSession { session } => sessions.push(stored_session(session)),
        _ => sessions,
    }
}

/// `a` is the kind of answer that `q` gets. Every handler asks only queries
/// whose every answer of this kind it accepts next.
pub open spec fn answers(q: Query, a: Answer) -> bool {
    match q {
        Query::MembershipOf { .. } => a is Membership,
        Query::WebsiteById { .. } => a is Website,
        Query::InsertWebsite { .. } => a is Website,
        Query::UsersOfWebsite { .. } => a is Members,
        Query::WebsitesOfUser { .. } => a is Websites,
        Query::UserByName { .. } => a is User,
        Query::UserById { .. } => a is User,
        Query::InsertUser { .. } => a is User,
        Query::SessionByKey { .. } => a is Session,
        Query::InsertSession { .. } => a is Session,
        Query::InsertMembership { .. } => a is Affected,
        Query::DeleteSessionsOfUser { .. } => a is Affected,
        Query::DeleteSessionByKey { .. } => a is Affected,
        Query::DeleteExpiredSessions { .. } => a is Affected,
    }
}

/// What a handler does next: run a query and resume as `F` with its answer,
/// or finish with `R`.
#[derive(Debug)]
pub enum Step<F, R> {
    Run(F, Query),
    Done(R),
}

} // verus!
