use site_management::db::{Answer, Query, Step};
use site_management::models::{DbError, Session, User, UserWebsite, Website};
use site_management::responses::{Page, Reply, Status};
use site_management::routes::{
    login, login_reason, manage_home, manage_website, manage_website_admin, manage_website_new_user, logout,
    new_website, new_website_submit, unauthorized, FieldSubmitForm, LoginRedirectReason, NewUserForm,
};
use site_management::user_login::UserLogin;
use site_management::auth::auth;

fn login_as(id: i32, superadmin: bool) -> UserLogin {
    UserLogin {
        session: Session { key: format!("key{}", id), user_id: id, expire_date: 0 },
        user: User { id, username: format!("user{}", id), password: String::new(), salt: String::new(), superadmin },
    }
}

fn site(id: i32) -> Website {
    Website { id, name: format!("site{}", id) }
}

/// A database with users 1 (admin of site 10), 2 (member of site 10), 3 (no
/// membership), and site 10.
fn answer(query: Query) -> Answer {
    let users = [(1, "user1"), (2, "user2"), (3, "user3")];
    let memberships = [UserWebsite { user_id: 1, website_id: 10, admin: true }, UserWebsite { user_id: 2, website_id: 10, admin: false }];
    let user = |id: i32| User { id, username: format!("user{}", id), password: String::new(), salt: String::new(), superadmin: false };
    match query {
        Query::MembershipOf { user_id, website_id } => match memberships.iter().find(|m| m.user_id == user_id && m.website_id == website_id) {
            Some(m) => Answer::Membership(Ok((*m, site(website_id)))),
            None => Answer::Membership(Err(DbError { message: String::new() })),
        },
        Query::WebsiteById { website_id } => if website_id == 10 { Answer::Website(Ok(site(10))) } else { Answer::Website(Err(DbError { message: String::new() })) },
        Query::UsersOfWebsite { website_id } => Answer::Members(Ok(memberships.iter().filter(|m| m.website_id == website_id).map(|m| (*m, user(m.user_id))).collect())),
        Query::WebsitesOfUser { user_id } => Answer::Websites(Ok(memberships.iter().filter(|m| m.user_id == user_id).map(|m| (*m, site(m.website_id))).collect())),
        Query::UserByName { username } => match users.iter().find(|(_, n)| *n == username) {
            Some((id, _)) => Answer::User(Ok(user(*id))),
            None => Answer::User(Err(DbError { message: String::new() })),
        },
        Query::InsertMembership { .. } => Answer::Affected(Ok(1)),
        Query::InsertWebsite { name } => Answer::Website(Ok(Website { id: 42, name })),
        Query::DeleteSessionByKey { .. } => Answer::Affected(Ok(1)),
        other => panic!("unexpected query {:?}", other),
    }
}

trait Flow: Sized {
    fn next(self, answer: Answer) -> Step<Self, Reply>;
}

impl Flow for site_management::routes::ManageHome {
    fn next(self, answer: Answer) -> Step<Self, Reply> { self.resume(answer) }
}
impl Flow for site_management::routes::ManageWebsite {
    fn next(self, answer: Answer) -> Step<Self, Reply> { self.resume(answer) }
}
impl Flow for site_management::routes::ManageWebsiteAdmin {
    fn next(self, answer: Answer) -> Step<Self, Reply> { self.resume(answer) }
}
impl Flow for site_management::routes::ManageWebsiteNewUser {
    fn next(self, answer: Answer) -> Step<Self, Reply> { self.resume(answer) }
}
impl Flow for site_management::routes::NewWebsiteSubmit {
    fn next(self, answer: Answer) -> Step<Self, Reply> { self.resume(answer) }
}
impl Flow for site_management::routes::Logout {
    fn next(self, answer: Answer) -> Step<Self, Reply> { self.resume(answer) }
}

/// Runs a handler against the test database; returns its reply and the
/// queries it asked, in order.
fn drive<F: Flow>(start: Step<F, Reply>) -> (Reply, Vec<String>) {
    let mut step = start;
    let mut queries: Vec<String> = Vec::new();
    loop {
        match step {
            Step::Done(reply) => return (reply, queries),
            Step::Run(flow, query) => {
                queries.push(format!("{:?}", query));
                step = flow.next(answer(query));
            }
        }
    }
}

#[test]
fn manage_home_lists_websites() {
    let (reply, _) = drive(manage_home(login_as(1, false)));
    match reply {
        Reply::Render(Page::ManageHome(context)) => {
            assert!(!context.superadmin);
            assert_eq!(context.websites.len(), 1);
            assert!(context.websites[0].admin);
            assert_eq!(context.websites[0].website_id, 10);
            assert_eq!(context.websites[0].website_name, "site10");
        }
        other => panic!("unexpected reply {:?}", other),
    }
}

#[test]
fn manage_home_not_found_on_error() {
    match manage_home(login_as(1, false)) {
        Step::Run(flow, Query::WebsitesOfUser { user_id: 1 }) => {
            assert!(matches!(flow.resume(Answer::Websites(Err(DbError { message: String::new() }))), Step::Done(Reply::Fail(Status::NotFound))));
        }
        other => panic!("unexpected step {:?}", other),
    }
}

#[test]
fn manage_website_for_member() {
    let (reply, _) = drive(manage_website("Pages".to_string(), 10, login_as(2, false)));
    match reply {
        Reply::Render(Page::ManageWebsite(context)) => {
            assert_eq!(context.title, "Pages - user2");
            assert_eq!(context.website_id, "10");
            assert_eq!(context.website_name, "site10");
            assert_eq!(context.session_key, "key2");
        }
        other => panic!("unexpected reply {:?}", other),
    }
}

#[test]
fn manage_website_forbidden_for_non_member() {
    let (reply, queries) = drive(manage_website("Pages".to_string(), 10, login_as(3, false)));
    assert!(matches!(reply, Reply::Fail(Status::Forbidden)));
    assert_eq!(queries.len(), 1);
}

#[test]
fn manage_website_admin_lists_members() {
    let (reply, _) = drive(manage_website_admin(10, login_as(1, false)));
    match reply {
        Reply::Render(Page::ManageWebsiteAdmin(context)) => {
            assert_eq!(context.title, "site10");
            assert_eq!(context.website_id, 10);
            assert_eq!(context.user_listings.len(), 2);
            assert!(context.user_listings[0].admin);
            assert_eq!(context.user_listings[1].name, "user2");
            assert_eq!(context.user_listings[1].id, 2);
        }
        other => panic!("unexpected reply {:?}", other),
    }
}

#[test]
fn manage_website_admin_forbidden_for_plain_member() {
    let (reply, queries) = drive(manage_website_admin(10, login_as(2, false)));
    assert!(matches!(reply, Reply::Fail(Status::Forbidden)));
    assert_eq!(queries.len(), 1);
}

#[test]
fn superadmin_skips_membership_lookup() {
    let (reply, queries) = drive(manage_website_admin(10, login_as(3, true)));
    assert!(matches!(reply, Reply::Render(Page::ManageWebsiteAdmin(_))));
    assert!(queries[0].starts_with("WebsiteById"));
}

#[test]
fn manage_website_admin_unknown_site_is_internal_error() {
    let (reply, _) = drive(manage_website_admin(11, login_as(3, true)));
    assert!(matches!(reply, Reply::Fail(Status::InternalServerError)));
}

fn new_user_form(name: &str, admin: bool) -> NewUserForm {
    NewUserForm { submit: String::new(), name: name.to_string(), admin }
}

#[test]
fn admin_adds_member() {
    let (reply, queries) = drive(manage_website_new_user(10, new_user_form("user3", true), login_as(1, false)));
    match reply {
        Reply::Redirect(url) => assert_eq!(url, "/manage/10/admin"),
        other => panic!("unexpected reply {:?}", other),
    }
    assert!(queries.iter().any(|q| q.contains("InsertMembership") && q.contains("user_id: 3") && q.contains("admin: true")));
}

#[test]
fn unknown_user_is_reported() {
    let (reply, queries) = drive(manage_website_new_user(10, new_user_form("nobody", false), login_as(1, false)));
    match reply {
        Reply::Redirect(url) => assert_eq!(url, "/manage/10/admin?wrong_user"),
        other => panic!("unexpected reply {:?}", other),
    }
    assert!(!queries.iter().any(|q| q.contains("InsertMembership")));
}

#[test]
fn non_admin_cannot_add_member() {
    let (reply, queries) = drive(manage_website_new_user(10, new_user_form("user3", true), login_as(2, false)));
    assert!(matches!(reply, Reply::Fail(Status::Forbidden)));
    assert!(!queries.iter().any(|q| q.contains("InsertMembership")));
}

#[test]
fn failed_insert_is_internal_error() {
    let step = manage_website_new_user(10, new_user_form("user3", false), login_as(4, true));
    let step = match step { Step::Run(f, q) => f.resume(answer(q)), other => panic!("{:?}", other) };
    let step = match step { Step::Run(f, q) => f.resume(answer(q)), other => panic!("{:?}", other) };
    match step {
        Step::Run(f, Query::InsertMembership { membership }) => {
            assert_eq!(membership, UserWebsite { user_id: 3, website_id: 10, admin: false });
            assert!(matches!(f.resume(Answer::Affected(Err(DbError { message: String::new() }))), Step::Done(Reply::Fail(Status::InternalServerError))));
        }
        other => panic!("unexpected step {:?}", other),
    }
}

#[test]
fn new_website_only_for_superadmin() {
    assert!(matches!(new_website(login_as(1, true)), Reply::Render(Page::NewWebsite)));
    assert!(matches!(new_website(login_as(1, false)), Reply::Fail(Status::Forbidden)));
}

#[test]
fn new_website_submit_creates_site() {
    let form = || FieldSubmitForm { submit: String::new(), value: "Blog".to_string() };
    let (reply, _) = drive(new_website_submit(form(), login_as(1, true)));
    match reply {
        Reply::Redirect(url) => assert_eq!(url, "/manage/42/admin"),
        other => panic!("unexpected reply {:?}", other),
    }
    let (reply, queries) = drive(new_website_submit(form(), login_as(1, false)));
    assert!(matches!(reply, Reply::Fail(Status::Forbidden)));
    assert!(queries.is_empty());
    match new_website_submit(form(), login_as(1, true)) {
        Step::Run(flow, Query::InsertWebsite { name }) => {
            assert_eq!(name, "Blog");
            match flow.resume(Answer::Website(Err(DbError { message: String::new() }))) {
                Step::Done(Reply::Redirect(url)) => assert_eq!(url, "/manage"),
                other => panic!("unexpected step {:?}", other),
            }
        }
        other => panic!("unexpected step {:?}", other),
    }
}

#[test]
fn login_pages() {
    match login() {
        Page::Login(context) => {
            assert_eq!(context.title, "login");
            assert_eq!(context.reason, None);
        }
        other => panic!("unexpected page {:?}", other),
    }
    let reason = |r: &str| LoginRedirectReason { reason: Some(r.to_string()) };
    assert_eq!(reason("failed").reason_desc(), Some("You entered the wrong username or password"));
    assert_eq!(reason("unauthorized").reason_desc(), Some("You need to be logged in to view this page"));
    assert_eq!(reason("other").reason_desc(), None);
    assert_eq!(LoginRedirectReason::empty().reason_desc(), None);
    match login_reason(reason("failed")) {
        Page::Login(context) => assert_eq!(context.reason, Some("You entered the wrong username or password")),
        other => panic!("unexpected page {:?}", other),
    }
}

#[test]
fn unauthorized_redirects() {
    assert_eq!(unauthorized("/auth"), "/login?reason=failed");
    assert_eq!(unauthorized("/manage/10/admin"), "/login?reason=unauthorized");
}

#[test]
fn sign_in_and_out_replies() {
    let session = Session { key: "ABC".to_string(), user_id: 1, expire_date: 0 };
    match auth(Some(session)) {
        Reply::SignIn(key) => assert_eq!(key, "ABC"),
        other => panic!("unexpected reply {:?}", other),
    }
    assert!(matches!(auth(None), Reply::Fail(Status::Unauthorized)));
    let (reply, queries) = drive(logout(login_as(1, false)));
    match reply {
        Reply::SignOut(then) => match *then {
            Reply::Redirect(url) => assert_eq!(url, "/login"),
            other => panic!("unexpected reply {:?}", other),
        },
        other => panic!("unexpected reply {:?}", other),
    }
    assert!(queries[0].contains("key1"));
    match logout(login_as(1, false)) {
        Step::Run(flow, _) => match flow.resume(Answer::Affected(Err(DbError { message: String::new() }))) {
            Step::Done(Reply::SignOut(then)) => assert!(matches!(*then, Reply::Fail(Status::InternalServerError))),
            other => panic!("unexpected step {:?}", other),
        },
        other => panic!("unexpected step {:?}", other),
    }
}
