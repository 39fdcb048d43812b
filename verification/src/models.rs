//! The records of the service (websites, users, memberships, sessions and
//! images) and the computations made on them once they are loaded.

use vstd::prelude::*;
use vstd::utf8::{encode_utf8, is_ascii_chars, is_ascii_chars_encode_utf8};
use crate::argon2::{argon2_accepts, hash_argon2, password_hash};
use crate::text::is_upper_hex_char;
use crate::clock::now_unix_nanos;
use crate::random::{is_ascii_alphanumeric, rand_str};
use crate::text::{ascii_upper, to_ascii_uppercase};
use crate::SESSION_LENGTH;

verus! {

/// A failed database query: no matching row, or no answer at all, with the
/// database's explanation.
#[derive(Clone, Debug)]
pub struct DbError {
    pub message: String,
}

impl DbError {
    /// An answer that does not fit the query it answers.
    pub fn unexpected() -> (e: DbError)
        ensures
            e.message@ == "unexpected answer"@,
    {
        DbError { message: String::from_str("unexpected answer") }
    }
}

/// A website managed by the service.
#[derive(Clone, Debug)]
pub struct Website {
    pub id: i32,
    pub name: String,
}

/// A website about to be inserted.
#[derive(Debug)]
pub struct NewWebsite<'a> {
    pub name: &'a str,
}

/// An account. `password` holds the hash of the password under `salt`.
#[derive(Clone, Debug)]
pub struct User {
    pub id: i32,
    pub username: String,
    pub password: String,
    pub salt: String,
    pub superadmin: bool,
}

/// An account about to be inserted.
#[derive(Debug)]
pub struct NewUser<'a> {
    pub username: &'a str,
    pub password: String,
    pub salt: String,
}

/// Membership of a user in a website, possibly as its administrator.
#[derive(Clone, Copy, Debug, PartialEq, Eq)]
pub struct UserWebsite {
    pub user_id: i32,
    pub website_id: i32,
    pub admin: bool,
}

/// A login session. `expire_date` is in nanoseconds since the UNIX epoch
/// (negative before it).
#[derive(Clone, Debug)]
pub struct Session {
    pub key: String,
    pub user_id: i32,
    pub expire_date: i128,
}

/// A login session about to be inserted.
#[derive(Clone, Debug)]
pub struct NewSession {
    pub key: String,
    pub user_id: i32,
    pub expire_date: i128,
}

/// An uploaded image. `upload_date` is in nanoseconds since the UNIX epoch
/// (negative before it).
#[derive(Debug)]
pub struct Image {
    id: i32,
    website_id: i32,
    uploaded_by: i32,
    filename: String,
    upload_date: i128,
}

/// An image about to be inserted.
#[derive(Debug)]
pub struct NewImage<'a> {
    website_id: i32,
    uploaded_by: i32,
    filename: &'a str,
    upload_date: i128,
}

/// The rows of a website's member list: each membership of `website_id`
/// joined with the user it names, as the pair (admin flag, user), in the
/// order of `rows`. Rows of other websites, or whose user does not match the
/// membership, are left out.
pub open spec fn website_members(website_id: i32, rows: Seq<(UserWebsite, User)>) -> Seq<(bool, User)>
    decreases rows.len(),
{
    if rows.len() == 0 {
        seq![]
    } else {
        let rest = website_members(website_id, rows.drop_last());
        let row = rows.last();
        if row.0.website_id == website_id && row.0.user_id == row.1.id {
            rest.push((row.0.admin, row.1))
        } else {
            rest
        }
    }
}

/// The websites of a user: each membership of `user_id` joined with the
/// website it names, as the pair (admin flag, website), in the order of
/// `rows`.
pub open spec fn user_websites(user_id: i32, rows: Seq<(UserWebsite, Website)>) -> Seq<(bool, Website)>
    decreases rows.len(),
{
    if rows.len() == 0 {
        seq![]
    } else {
        let rest = user_websites(user_id, rows.drop_last());
        let row = rows.last();
        if row.0.user_id == user_id && row.0.website_id == row.1.id {
            rest.push((row.0.admin, row.1))
        } else {
            rest
        }
    }
}

/// An entry of a user's websites list comes from a membership row of that
/// user joined with that website, carrying its admin flag.
pub proof fn lemma_user_websites_from_row(user_id: i32, rows: Seq<(UserWebsite, Website)>, entry: (bool, Website))
    requires
        user_websites(user_id, rows).contains(entry),
    ensures
        exists|m: UserWebsite| #[trigger] rows.contains((m, entry.1)) && m.user_id == user_id && m.website_id == entry.1.id
            && m.admin == entry.0,
    decreases rows.len(),
{
    let rest = user_websites(user_id, rows.drop_last());
    let row = rows.last();
    if row.0.user_id == user_id && row.0.website_id == row.1.id && entry == (row.0.admin, row.1) {
        assert(rows.contains((row.0, entry.1)) && row.0.user_id == user_id);
    } else {
        assert(rest.contains(entry));
        lemma_user_websites_from_row(user_id, rows.drop_last(), entry);
        let m = choose|m: UserWebsite| #[trigger] rows.drop_last().contains((m, entry.1)) && m.user_id == user_id
            && m.website_id == entry.1.id && m.admin == entry.0;
        let k = choose|k: int| 0 <= k < rows.drop_last().len() && rows.drop_last()[k] == (m, entry.1);
        assert(rows[k] == (m, entry.1));
        assert(rows.contains((m, entry.1)));
    }
}

/// A membership row of a user joined with its website shows in the user's
/// websites list with its admin flag.
pub proof fn lemma_user_websites_has_row(user_id: i32, rows: Seq<(UserWebsite, Website)>, m: UserWebsite, w: Website)
    requires
        rows.contains((m, w)),
        m.user_id == user_id,
        m.website_id == w.id,
    ensures
        user_websites(user_id, rows).contains((m.admin, w)),
    decreases rows.len(),
{
    let rest = user_websites(user_id, rows.drop_last());
    if rows.last() == (m, w) {
        assert(user_websites(user_id, rows) == rest.push((m.admin, w)));
        assert(rest.push((m.admin, w))[rest.len() as int] == (m.admin, w));
    } else {
        let k = choose|k: int| 0 <= k < rows.len() && rows[k] == (m, w);
        assert(k < rows.len() - 1);
        assert(rows.drop_last()[k] == (m, w));
        lemma_user_websites_has_row(user_id, rows.drop_last(), m, w);
        let j = choose|j: int| 0 <= j < rest.len() && rest[j] == (m.admin, w);
        let all = user_websites(user_id, rows);
        assert(all == rest || all == rest.push((rows.last().0.admin, rows.last().1)));
        assert(all[j] == (m.admin, w));
    }
}

/// An entry of a website's members list comes from a membership row of that
/// website joined with that user, carrying its admin flag.
pub proof fn lemma_website_members_from_row(website_id: i32, rows: Seq<(UserWebsite, User)>, entry: (bool, User))
    requires
        website_members(website_id, rows).contains(entry),
    ensures
        exists|m: UserWebsite| #[trigger] rows.contains((m, entry.1)) && m.website_id == website_id && m.user_id == entry.1.id
            && m.admin == entry.0,
    decreases rows.len(),
{
    let rest = website_members(website_id, rows.drop_last());
    let row = rows.last();
    if row.0.website_id == website_id && row.0.user_id == row.1.id && entry == (row.0.admin, row.1) {
        assert(rows.contains((row.0, entry.1)) && row.0.website_id == website_id);
    } else {
        assert(rest.contains(entry));
        lemma_website_members_from_row(website_id, rows.drop_last(), entry);
        let m = choose|m: UserWebsite| #[trigger] rows.drop_last().contains((m, entry.1)) && m.website_id == website_id
            && m.user_id == entry.1.id && m.admin == entry.0;
        let k = choose|k: int| 0 <= k < rows.drop_last().len() && rows.drop_last()[k] == (m, entry.1);
        assert(rows[k] == (m, entry.1));
        assert(rows.contains((m, entry.1)));
    }
}

/// A membership row of a website joined with its user shows in the
/// website's members list with its admin flag.
pub proof fn lemma_website_members_has_row(website_id: i32, rows: Seq<(UserWebsite, User)>, m: UserWebsite, u: User)
    requires
        rows.contains((m, u)),
        m.website_id == website_id,
        m.user_id == u.id,
    ensures
        website_members(website_id, rows).contains((m.admin, u)),
    decreases rows.len(),
{
    let rest = website_members(website_id, rows.drop_last());
    if rows.last() == (m, u) {
        assert(website_members(website_id, rows) == rest.push((m.admin, u)));
        assert(rest.push((m.admin, u))[rest.len() as int] == (m.admin, u));
    } else {
        let k = choose|k: int| 0 <= k < rows.len() && rows[k] == (m, u);
        assert(k < rows.len() - 1);
        assert(rows.drop_last()[k] == (m, u));
        lemma_website_members_has_row(website_id, rows.drop_last(), m, u);
        let j = choose|j: int| 0 <= j < rest.len() && rest[j] == (m.admin, u);
        let all = website_members(website_id, rows);
        assert(all == rest || all == rest.push((rows.last().0.admin, rows.last().1)));
        assert(all[j] == (m.admin, u));
    }
}

/// `rows` is what the lookup of the websites of `user_id` answers on a
/// database whose membership and website tables hold `memberships` and
/// `websites`: each membership of that user joined with its website.
pub open spec fn is_websites_of_user(
    rows: Seq<(UserWebsite, Website)>,
    user_id: i32,
    memberships: Seq<UserWebsite>,
    websites: Seq<Website>,
) -> bool {
    forall|m: UserWebsite, w: Website|
        #[trigger] rows.contains((m, w)) <==> (memberships.contains(m) && websites.contains(w) && m.user_id == user_id
            && m.website_id == w.id)
}

/// `rows` is what the lookup of the members of `website_id` answers on a
/// database whose membership and user tables hold `memberships` and
/// `users`: each membership of that website joined with its user.
pub open spec fn is_users_of_website(
    rows: Seq<(UserWebsite, User)>,
    website_id: i32,
    memberships: Seq<UserWebsite>,
    users: Seq<User>,
) -> bool {
    forall|m: UserWebsite, u: User|
        #[trigger] rows.contains((m, u)) <==> (memberships.contains(m) && users.contains(u) && m.website_id == website_id
            && m.user_id == u.id)
}

/// On one database, a user's websites list and a website's members list
/// agree: the website is in the user's list with an admin flag exactly when
/// the user is in the website's list with that flag.
pub proof fn websites_and_members_agree(
    user: User,
    website: Website,
    admin: bool,
    memberships: Seq<UserWebsite>,
    users: Seq<User>,
    websites: Seq<Website>,
    user_rows: Seq<(UserWebsite, Website)>,
    website_rows: Seq<(UserWebsite, User)>,
)
    requires
        users.contains(user),
        websites.contains(website),
        is_websites_of_user(user_rows, user.id, memberships, websites),
        is_users_of_website(website_rows, website.id, memberships, users),
    ensures
        user_websites(user.id, user_rows).contains((admin, website)) <==> website_members(website.id, website_rows).contains(
            (admin, user),
        ),
{
    if user_websites(user.id, user_rows).contains((admin, website)) {
        lemma_user_websites_from_row(user.id, user_rows, (admin, website));
        let m = choose|m: UserWebsite| #[trigger] user_rows.contains((m, website)) && m.user_id == user.id
            && m.website_id == website.id && m.admin == admin;
        assert(website_rows.contains((m, user)));
        lemma_website_members_has_row(website.id, website_rows, m, user);
    }
    if website_members(website.id, website_rows).contains((admin, user)) {
        lemma_website_members_from_row(website.id, website_rows, (admin, user));
        let m = choose|m: UserWebsite| #[trigger] website_rows.contains((m, user)) && m.website_id == website.id
            && m.user_id == user.id && m.admin == admin;
        assert(user_rows.contains((m, website)));
        lemma_user_websites_has_row(user.id, user_rows, m, website);
    }
}

impl Website {
    /// The members of this website with their admin flags, from the rows of
    /// memberships joined with users.
    pub fn get_users(&self, rows: Vec<(UserWebsite, User)>) -> (users: Vec<(bool, User)>)
        ensures
            users@ == website_members(self.id, rows@),
    {
        let ghost all = rows@;
        let mut users: Vec<(bool, User)> = Vec::new();
        for row in it: rows
            invariant
                it.seq() == all,
                users@ == website_members(self.id, all.take(it.index())),
        {
            proof {
                assert(all.take(it.index() + 1).drop_last() =~= all.take(it.index()));
            }
            let (membership, user) = row;
            if membership.website_id == self.id && membership.user_id == user.id {
                users.push((membership.admin, user));
            }
        }
        proof {
            assert(all.take(all.len() as int) =~= all);
        }
        users
    }

    /// The membership that makes `user` a member of this website, as its
    /// administrator when `admin` holds.
    pub fn new_membership(&self, user: &User, admin: bool) -> (membership: UserWebsite)
        ensures
            membership.user_id == user.id,
            membership.website_id == self.id,
            membership.admin == admin,
    {
        UserWebsite { user_id: user.id, website_id: self.id, admin: admin }
    }
}


/// The membership of `user_id` in `website_id`, read from the answer to that
/// lookup: the admin flag and the website, when the row found is that
/// membership joined with that website.
pub open spec fn membership_of(
    user_id: i32,
    website_id: i32,
    row: Result<(UserWebsite, Website), DbError>,
) -> Option<(bool, Website)> {
    match row {
        Ok((uw, w)) => if uw.user_id == user_id && uw.website_id == website_id && w.id == website_id {
            Some((uw.admin, w))
        } else {
            None
        },
        Err(_) => None,
    }
}

impl User {
    /// The websites of this user with the admin flag of each membership, from
    /// the rows of memberships joined with websites.
    pub fn get_websites(&self, rows: Vec<(UserWebsite, Website)>) -> (websites: Vec<(bool, Website)>)
        ensures
            websites@ == user_websites(self.id, rows@),
    {
        let ghost all = rows@;
        let mut websites: Vec<(bool, Website)> = Vec::new();
        for row in it: rows
            invariant
                it.seq() == all,
                websites@ == user_websites(self.id, all.take(it.index())),
        {
            proof {
                assert(all.take(it.index() + 1).drop_last() =~= all.take(it.index()));
            }
            let (membership, website) = row;
            if membership.user_id == self.id && membership.website_id == website.id {
                websites.push((membership.admin, website));
            }
        }
        proof {
            assert(all.take(all.len() as int) =~= all);
        }
        websites
    }

    /// This user's membership in `website_id` with its website, from the
    /// answer to the lookup of that membership; `Err` when there is none.
    pub fn get_website(&self, website_id: i32, row: Result<(UserWebsite, Website), DbError>) -> (r: Result<(bool, Website), DbError>)
        ensures
            match r {
                Ok(found) => membership_of(self.id, website_id, row) == Some(found),
                Err(_) => membership_of(self.id, website_id, row) is None,
            },
    {
        match row {
            Ok((membership, website)) => {
                if membership.user_id == self.id && membership.website_id == website_id && website.id == website_id {
                    Ok((membership.admin, website))
                } else {
                    Err(DbError::unexpected())
                }
            },
            Err(e) => Err(e),
        }
    }

    /// Whether this user may administer `website_id`: a superadmin may
    /// administer every website, any other user the websites of which they
    /// hold an admin membership (`membership` answers the lookup of it).
    pub fn is_admin_of(&self, website_id: i32, membership: Result<(UserWebsite, Website), DbError>) -> (admin: bool)
        ensures
            admin == (self.superadmin || membership_of(self.id, website_id, membership) matches Some((true, _))),
    {
        if self.superadmin {
            return true;
        }
        match self.get_website(website_id, membership) {
            Ok((admin, _)) => admin,
            Err(_) => false,
        }
    }

    /// Whether this user is a member of `website_id` (`membership` answers
    /// the lookup of that membership).
    pub fn is_member_of(&self, website_id: i32, membership: Result<(UserWebsite, Website), DbError>) -> (member: bool)
        ensures
            member == membership_of(self.id, website_id, membership) is Some,
    {
        self.get_website(website_id, membership).is_ok()
    }

    /// Whether `password` is this user's password: its hash under the user's
    /// salt is the stored hash.
    pub fn password_matches(&self, password: &str) -> (matches: bool)
        requires
            argon2_accepts(password@, self.salt@),
        ensures
            matches == (self.password@ == password_hash(password@, self.salt@)),
    {
        self.password == hash_argon2(password, self.salt.as_str())
    }
}

/// A character that salts are made of: `A-Z` or `0-9`.
pub open spec fn is_salt_char(c: char) -> bool {
    ('A' <= c <= 'Z') || ('0' <= c <= '9')
}

/// Length of a salt, in characters.
pub const SALT_LENGTH: usize = 64;

/// Length of a session key, in characters.
pub const SESSION_KEY_LENGTH: usize = 32;

impl<'a> NewUser<'a> {
    /// A new account for `username` with password `password_plain`: a fresh
    /// random salt of 64 characters of `A-Z0-9`, and the hash of the password
    /// under that salt.
    pub fn new(username: &'a str, password_plain: &'a str) -> (user: NewUser<'a>)
        requires
            encode_utf8(password_plain@).len() <= 0xffff_ffff,
        ensures
            user.username == username,
            user.salt@.len() == SALT_LENGTH,
            forall|i: int| 0 <= i < user.salt@.len() ==> is_salt_char(#[trigger] user.salt@[i]),
            user.password@ == password_hash(password_plain@, user.salt@),
            user.password@.len() == 64,
            forall|i: int| 0 <= i < user.password@.len() ==> is_upper_hex_char(#[trigger] user.password@[i]),
    {
        let random = rand_str(SALT_LENGTH);
        let salt = to_ascii_uppercase(random.as_str());
        proof {
            assert forall|i: int| 0 <= i < salt@.len() implies is_salt_char(#[trigger] salt@[i]) by {
                assert(is_ascii_alphanumeric(random@[i]));
                assert(salt@[i] == ascii_upper(random@[i]));
            }
            assert(is_ascii_chars(salt@));
            is_ascii_chars_encode_utf8(salt@);
        }
        let password_hash = hash_argon2(password_plain, salt.as_str());
        NewUser { username: username, password: password_hash, salt: salt }
    }
}

/// Nanoseconds in a second.
pub const NANOS_PER_SECOND: i128 = 1_000_000_000;

/// How long a session stays valid, in nanoseconds.
pub open spec fn session_length_nanos() -> int {
    SESSION_LENGTH * NANOS_PER_SECOND
}

/// The expiry of a session opened at `now` (nanoseconds since the UNIX
/// epoch): `SESSION_LENGTH` seconds later, or the last representable instant
/// when that lies beyond it.
pub open spec fn session_expiry(now: i128) -> i128 {
    if now + session_length_nanos() <= i128::MAX {
        (now + session_length_nanos()) as i128
    } else {
        i128::MAX
    }
}

/// A session that expires at `expire_date` has expired at `now` once that
/// instant has passed.
pub open spec fn is_expired(expire_date: i128, now: i128) -> bool {
    expire_date < now
}

/// A session opened at `now` stays valid for `SESSION_LENGTH` seconds: it
/// has not expired at any instant up to `now + SESSION_LENGTH`, and (unless
/// that instant lies beyond the clock's range) it has expired at every
/// instant after.
pub proof fn session_lasts_its_length(now: i128, t: i128)
    ensures
        t <= now + session_length_nanos() ==> !is_expired(session_expiry(now), t),
        now + session_length_nanos() < t ==> is_expired(session_expiry(now), t),
{
}

impl NewSession {
    /// A new session for `user_id`, with a fresh random key of 32 characters
    /// of `A-Za-z0-9`, expiring 48 hours from now.
    pub fn new(user_id: i32) -> (session: NewSession)
        ensures
            session.user_id == user_id,
            session.key@.len() == SESSION_KEY_LENGTH,
            forall|i: int| 0 <= i < session.key@.len() ==> is_ascii_alphanumeric(#[trigger] session.key@[i]),
            exists|now: i128| session.expire_date == #[trigger] session_expiry(now),
    {
        let key = rand_str(SESSION_KEY_LENGTH);
        let now = now_unix_nanos();
        NewSession::issued_at(user_id, key, now)
    }

    /// The session for `user_id` with key `key` opened at `now` (nanoseconds
    /// since the UNIX epoch): it expires `SESSION_LENGTH` seconds later.
    pub fn issued_at(user_id: i32, key: String, now: i128) -> (session: NewSession)
        ensures
            session.user_id == user_id,
            session.key == key,
            session.expire_date == session_expiry(now),
    {
        let length: i128 = (SESSION_LENGTH as i128) * NANOS_PER_SECOND;
        let expire_date = if now <= i128::MAX - length {
            now + length
        } else {
            i128::MAX
        };
        NewSession { key: key, user_id: user_id, expire_date: expire_date }
    }
}

impl<'a> NewImage<'a> {
    /// A new image `filename` of `website_id` uploaded by `user_id`, dated now.
    pub fn new(website_id: i32, user_id: i32, filename: &'a str) -> (image: NewImage<'a>)
        ensures
            image.website_id() == website_id,
            image.uploaded_by() == user_id,
            image.filename() == filename,
    {
        NewImage::uploaded_at(website_id, user_id, filename, now_unix_nanos())
    }

    /// The image `filename` of `website_id` uploaded by `user_id` at
    /// `upload_date` (nanoseconds since the UNIX epoch).
    pub fn uploaded_at(website_id: i32, user_id: i32, filename: &'a str, upload_date: i128) -> (image: NewImage<'a>)
        ensures
            image.website_id() == website_id,
            image.uploaded_by() == user_id,
            image.filename() == filename,
            image.upload_date() == upload_date,
    {
        NewImage { website_id: website_id, uploaded_by: user_id, filename: filename, upload_date: upload_date }
    }

    /// When the image was uploaded.
    pub closed spec fn upload_date(&self) -> i128 {
        self.upload_date
    }

    /// The website that the image belongs to.
    pub closed spec fn website_id(&self) -> i32 {
        self.website_id
    }

    /// The user that uploaded the image.
    pub closed spec fn uploaded_by(&self) -> i32 {
        self.uploaded_by
    }

    /// The file name of the image.
    pub closed spec fn filename(&self) -> &'a str {
        self.filename
    }
}

} // verus!
