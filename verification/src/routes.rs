//! The decisions of the service's request handlers. Each handler that needs
//! the database is a state machine over `db::Query` and `db::Answer`; the
//! caller runs the queries and renders the final `Reply`.

use vstd::prelude::*;
use vstd::string::*;
use crate::db::{answers, Answer, Query, Step};
use crate::models::{
    lemma_user_websites_from_row, lemma_website_members_from_row, membership_of, user_websites, website_members,
    DbError, User, UserWebsite, Website,
};
use crate::responses::{
    LoginContext, Page, PageContext, Reply, SiteListContext, Status, UserListing, WebsiteContext,
    WebsitePageContext,
};
use crate::text::{decimal, decimal_string, push_decimal, starts_with};
use crate::user_login::UserLogin;

verus! {

/// The URL of a website's administration page, `/manage/{website_id}/admin`.
pub open spec fn admin_url(website_id: i32) -> Seq<char> {
    "/manage/"@ + decimal(website_id as int) + "/admin"@
}

/// The administration page of a website, noting that the user to add was
/// not found: `/manage/{website_id}/admin?wrong_user`.
pub open spec fn wrong_user_url(website_id: i32) -> Seq<char> {
    "/manage/"@ + decimal(website_id as int) + "/admin?wrong_user"@
}

/// `/manage/{website_id}` followed by `suffix`.
fn website_url(website_id: i32, suffix: &str) -> (url: String)
    ensures
        url@ == "/manage/"@ + decimal(website_id as int) + suffix@,
{
    let mut url = String::from_str("/manage/");
    push_decimal(&mut url, website_id);
    url.append(suffix);
    url
}

/// The websites list of the management home page, one entry per membership.
pub open spec fn site_list(websites: Seq<(bool, Website)>) -> Seq<WebsiteContext> {
    websites.map_values(
        |entry: (bool, Website)|
            WebsiteContext { admin: entry.0, website_id: entry.1.id, website_name: entry.1.name },
    )
}

/// The members list of a website's administration page.
pub open spec fn user_listings(members: Seq<(bool, User)>) -> Seq<UserListing> {
    members.map_values(
        |entry: (bool, User)| UserListing { admin: entry.0, name: entry.1.username, id: entry.1.id },
    )
}

fn to_site_list(websites: Vec<(bool, Website)>) -> (list: Vec<WebsiteContext>)
    ensures
        list@ == site_list(websites@),
        list@.len() == websites@.len(),
        forall|i: int| 0 <= i < list@.len() ==> {
            &&& (#[trigger] list@[i]).admin == websites@[i].0
            &&& list@[i].website_id == websites@[i].1.id
            &&& list@[i].website_name == websites@[i].1.name
        },
{
    let ghost all = websites@;
    let mut list: Vec<WebsiteContext> = Vec::new();
    for entry in it: websites
        invariant
            it.seq() == all,
            list@ == site_list(all.take(it.index())),
    {
        let (admin, website) = entry;
        list.push(WebsiteContext { admin: admin, website_id: website.id, website_name: website.name });
        proof {
            assert(list@ =~= site_list(all.take(it.index() + 1)));
        }
    }
    proof {
        assert(all.take(all.len() as int) =~= all);
    }
    list
}

fn to_user_listings(members: Vec<(bool, User)>) -> (listings: Vec<UserListing>)
    ensures
        listings@ == user_listings(members@),
        listings@.len() == members@.len(),
        forall|i: int| 0 <= i < listings@.len() ==> {
            &&& (#[trigger] listings@[i]).admin == members@[i].0
            &&& listings@[i].name == members@[i].1.username
            &&& listings@[i].id == members@[i].1.id
        },
{
    let ghost all = members@;
    let mut listings: Vec<UserListing> = Vec::new();
    for entry in it: members
        invariant
            it.seq() == all,
            listings@ == user_listings(all.take(it.index())),
    {
        let (admin, user) = entry;
        listings.push(UserListing { admin: admin, name: user.username, id: user.id });
        proof {
            assert(listings@ =~= user_listings(all.take(it.index() + 1)));
        }
    }
    proof {
        assert(all.take(all.len() as int) =~= all);
    }
    listings
}

/// The query string of the login page: why the visitor was sent there.
#[derive(Debug)]
pub struct LoginRedirectReason {
    pub reason: Option<String>,
}

/// The explanation shown on the login page for a redirect reason.
pub open spec fn reason_text(reason: Option<String>) -> Option<Seq<char>> {
    match reason {
        Some(r) => if r@ == "failed"@ {
            Some("You entered the wrong username or password"@)
        } else if r@ == "unauthorized"@ {
            Some("You need to be logged in to view this page"@)
        } else {
            None
        },
        None => None,
    }
}

/// The view of an optional static text.
pub open spec fn text_view(text: Option<&'static str>) -> Option<Seq<char>> {
    match text {
        Some(t) => Some(t@),
        None => None,
    }
}

impl LoginRedirectReason {
    /// No reason given.
    pub fn empty() -> (r: Self)
        ensures
            r.reason is None,
    {
        LoginRedirectReason { reason: None }
    }

    /// The explanation for this reason: `failed` and `unauthorized` have one,
    /// any other reason and no reason have none.
    pub fn reason_desc(&self) -> (desc: Option<&'static str>)
        ensures
            text_view(desc) == reason_text(self.reason),
    {
        match &self.reason {
            Some(reason) => {
                if *reason == String::from_str("failed") {
                    Some("You entered the wrong username or password")
                } else if *reason == String::from_str("unauthorized") {
                    Some("You need to be logged in to view this page")
                } else {
                    None
                }
            },
            None => None,
        }
    }
}

/// The login page's context for `reason`: the title `login`, and the
/// explanation of the reason when it has one.
pub open spec fn is_login_page(page: Page, reason: Option<String>) -> bool {
    page matches Page::Login(context) && context.title@ == "login"@ && text_view(context.reason) == reason_text(reason)
}

/// The login page, with the explanation of why the visitor was sent there.
pub fn login_reason(reason: LoginRedirectReason) -> (page: Page)
    ensures
        is_login_page(page, reason.reason),
{
    Page::Login(LoginContext { title: String::from_str("login"), reason: reason.reason_desc() })
}

/// The login page, with no reason given: the same page as `login_reason`
/// with `LoginRedirectReason::empty()`.
pub fn login() -> (page: Page)
    ensures
        is_login_page(page, None),
{
    login_reason(LoginRedirectReason::empty())
}

/// The login page URL that an unauthorized request to `path` is sent to:
/// after a failed sign-in (a path under `/auth`) `/login?reason=failed`,
/// otherwise `/login?reason=unauthorized`.
pub fn unauthorized(path: &str) -> (url: String)
    ensures
        url@ == if "/auth"@.is_prefix_of(path@) {
            "/login?reason=failed"@
        } else {
            "/login?reason=unauthorized"@
        },
{
    if starts_with(path, "/auth") {
        String::from_str("/login?reason=failed")
    } else {
        String::from_str("/login?reason=unauthorized")
    }
}

/// The form for creating a website: its name in `value`.
#[derive(Debug)]
pub struct FieldSubmitForm {
    pub submit: String,
    pub value: String,
}

/// The form for adding a user, by name, to a website.
#[derive(Debug)]
pub struct NewUserForm {
    pub submit: String,
    pub name: String,
    pub admin: bool,
}

/// The page for creating a website, which only superadmins may see.
pub fn new_website(login: UserLogin) -> (reply: Reply)
    ensures
        reply == if login.user.superadmin {
            Reply::Render(Page::NewWebsite)
        } else {
            Reply::Fail(Status::Forbidden)
        },
{
    if !login.user.superadmin {
        return Reply::Fail(Status::Forbidden);
    }
    Reply::Render(Page::NewWebsite)
}

/// The management home page: the user's websites, once loaded.
#[derive(Debug)]
pub struct ManageHome {
    pub user: User,
}

/// Starts the management home page: the first query loads the websites of
/// the logged-in user.
pub fn manage_home(login: UserLogin) -> (step: Step<ManageHome, Reply>)
    ensures
        step matches Step::Run(next, query) ==> forall|a: Answer| #[trigger] answers(query, a) ==> next.expects(a),
        step == Step::<ManageHome, Reply>::Run(
            ManageHome { user: login.user },
            Query::WebsitesOfUser { user_id: login.user.id },
        ),
{
    let user_id = login.user.id;
    Step::Run(ManageHome { user: login.user }, Query::WebsitesOfUser { user_id: user_id })
}

impl ManageHome {
    /// `answer` is what the query that this state waits for gets.
    pub open spec fn expects(self, answer: Answer) -> bool {
        answer is Websites
    }

    /// The transition on `answer` to `step`: not found when the websites could
    /// not be loaded; otherwise the page listing the user's websites with
    /// their admin flags, and whether the user is a superadmin.
    pub open spec fn next(self, answer: Answer, step: Step<ManageHome, Reply>) -> bool {
        match answer {
            Answer::Websites(Ok(rows)) => match step {
                Step::Done(Reply::Render(Page::ManageHome(context))) => {
                    &&& context.websites@ == site_list(user_websites(self.user.id, rows@))
                    &&& context.superadmin == self.user.superadmin
                },
                _ => false,
            },
            _ => step == Step::<ManageHome, Reply>::Done(Reply::Fail(Status::NotFound)),
        }
    }

    /// Finishes the page with the loaded websites.
    pub fn resume(self, answer: Answer) -> (step: Step<ManageHome, Reply>)
        requires
            self.expects(answer),
        ensures
            self.next(answer, step),
    {
        match answer {
            Answer::Websites(Ok(rows)) => {
                let superadmin = self.user.superadmin;
                let websites = self.user.get_websites(rows);
                let context = SiteListContext { websites: to_site_list(websites), superadmin: superadmin };
                Step::Done(Reply::Render(Page::ManageHome(context)))
            },
            _ => Step::Done(Reply::Fail(Status::NotFound)),
        }
    }
}

/// Signing out: the session is deleted and the session cookie cleared.
#[derive(Debug)]
pub struct Logout;

/// Starts signing out of `login`: the query deletes its session.
pub fn logout(login: UserLogin) -> (step: Step<Logout, Reply>)
    ensures
        step matches Step::Run(next, query) ==> forall|a: Answer| #[trigger] answers(query, a) ==> next.expects(a),
        step == Step::<Logout, Reply>::Run(Logout, Query::DeleteSessionByKey { key: login.session.key }),
{
    Step::Run(Logout, Query::DeleteSessionByKey { key: login.session.key })
}

impl Logout {
    /// `answer` is what the query that this state waits for gets.
    pub open spec fn expects(self, answer: Answer) -> bool {
        answer is Affected
    }

    /// The transition on `answer` to `step`: the session cookie is cleared
    /// either way; then to the login page once the session is deleted, an
    /// internal error otherwise.
    pub open spec fn next(self, answer: Answer, step: Step<Logout, Reply>) -> bool {
        match step {
            Step::Done(Reply::SignOut(then)) => match answer {
                Answer::Affected(Ok(_)) => *then matches Reply::Redirect(url) && url@ == "/login"@,
                _ => *then == Reply::Fail(Status::InternalServerError),
            },
            _ => false,
        }
    }

    /// Finishes signing out.
    pub fn resume(self, answer: Answer) -> (step: Step<Logout, Reply>)
        requires
            self.expects(answer),
        ensures
            self.next(answer, step),
    {
        match answer {
            Answer::Affected(Ok(_)) => Step::Done(Reply::SignOut(Box::new(Reply::Redirect(String::from_str("/login"))))),
            _ => Step::Done(Reply::SignOut(Box::new(Reply::Fail(Status::InternalServerError)))),
        }
    }
}


/// A website's management page, which only its members may see: first the
/// membership of the logged-in user is checked, then the website is loaded.
#[derive(Debug)]
pub enum ManageWebsite {
    CheckingMembership { page: String, website_id: i32, login: UserLogin },
    LoadingWebsite { page: String, website_id: i32, login: UserLogin },
}

/// Starts the management page `page` of `website_id`: the first query looks
/// up the membership of the logged-in user in that website.
pub fn manage_website(page: String, website_id: i32, login: UserLogin) -> (step: Step<ManageWebsite, Reply>)
    ensures
        step matches Step::Run(next, query) ==> forall|a: Answer| #[trigger] answers(query, a) ==> next.expects(a),
        step == Step::<ManageWebsite, Reply>::Run(
            ManageWebsite::CheckingMembership { page: page, website_id: website_id, login: login },
            Query::MembershipOf { user_id: login.user.id, website_id: website_id },
        ),
{
    let user_id = login.user.id;
    Step::Run(
        ManageWebsite::CheckingMembership { page: page, website_id: website_id, login: login },
        Query::MembershipOf { user_id: user_id, website_id: website_id },
    )
}

/// The context of the management page `page` of `website` for `login`: the
/// title `{page} - {user name}`, the website's id and name, and the session
/// key.
pub open spec fn is_website_page(context: WebsitePageContext, page: String, website: Website, login: UserLogin) -> bool {
    &&& context.title@ == page@ + " - "@ + login.user.username@
    &&& context.website_id@ == decimal(website.id as int)
    &&& context.website_name == website.name
    &&& context.session_key == login.session.key
}

impl ManageWebsite {
    /// `answer` is what the query that this state waits for gets.
    pub open spec fn expects(self, answer: Answer) -> bool {
        match self {
            ManageWebsite::CheckingMembership { .. } => answer is Membership,
            ManageWebsite::LoadingWebsite { .. } => answer is Website,
        }
    }

    /// The transition from this state on `answer` to `step`: a non-member is
    /// forbidden; a website that cannot be loaded is not found.
    pub open spec fn next(self, answer: Answer, step: Step<ManageWebsite, Reply>) -> bool {
        match self {
            ManageWebsite::CheckingMembership { page, website_id, login } => match answer {
                Answer::Membership(row) => if membership_of(login.user.id, website_id, row) is Some {
                    step == Step::<ManageWebsite, Reply>::Run(
                        ManageWebsite::LoadingWebsite { page: page, website_id: website_id, login: login },
                        Query::WebsiteById { website_id: website_id },
                    )
                } else {
                    step == Step::<ManageWebsite, Reply>::Done(Reply::Fail(Status::Forbidden))
                },
                _ => false,
            },
            ManageWebsite::LoadingWebsite { page, website_id, login } => match answer {
                Answer::Website(Ok(website)) => if website.id == website_id {
                    step matches Step::Done(Reply::Render(Page::ManageWebsite(context)))
                        && is_website_page(context, page, website, login)
                } else {
                    step == Step::<ManageWebsite, Reply>::Done(Reply::Fail(Status::NotFound))
                },
                _ => step == Step::<ManageWebsite, Reply>::Done(Reply::Fail(Status::NotFound)),
            },
        }
    }

    /// Continues the page with the answer to the last query.
    pub fn resume(self, answer: Answer) -> (step: Step<ManageWebsite, Reply>)
        requires
            self.expects(answer),
        ensures
            step matches Step::Run(next, query) ==> forall|a: Answer| #[trigger] answers(query, a) ==> next.expects(a),
            self.next(answer, step),
    {
        match self {
            ManageWebsite::CheckingMembership { page, website_id, login } => match answer {
                Answer::Membership(row) => {
                    if login.user.is_member_of(website_id, row) {
                        Step::Run(
                            ManageWebsite::LoadingWebsite { page: page, website_id: website_id, login: login },
                            Query::WebsiteById { website_id: website_id },
                        )
                    } else {
                        Step::Done(Reply::Fail(Status::Forbidden))
                    }
                },
                _ => Step::Done(Reply::Fail(Status::Forbidden)),
            },
            ManageWebsite::LoadingWebsite { page, website_id, login } => match answer {
                Answer::Website(Ok(website)) => {
                    if website.id == website_id {
                        let UserLogin { session, user } = login;
                        let mut title = page;
                        title.append(" - ");
                        title.append(user.username.as_str());
                        let context = WebsitePageContext {
                            title: title,
                            website_id: decimal_string(website.id),
                            website_name: website.name,
                            session_key: session.key,
                        };
                        Step::Done(Reply::Render(Page::ManageWebsite(context)))
                    } else {
                        Step::Done(Reply::Fail(Status::NotFound))
                    }
                },
                _ => Step::Done(Reply::Fail(Status::NotFound)),
            },
        }
    }
}

/// The admin membership that lets the logged-in user administer
/// `website_id`, or none for a superadmin, who may administer every website.
pub open spec fn grants_admin(user: User, website_id: i32, grant: Option<UserWebsite>) -> bool {
    match grant {
        Some(membership) => membership.user_id == user.id && membership.website_id == website_id && membership.admin,
        None => user.superadmin,
    }
}

/// The grant read from the answer to the lookup of `user`'s membership in
/// `website_id`: that membership, when it is an admin membership.
pub open spec fn grant_from(user: User, website_id: i32, row: Result<(UserWebsite, Website), DbError>) -> Option<UserWebsite> {
    match row {
        Ok((membership, _)) => if membership_of(user.id, website_id, row) matches Some((true, _)) {
            Some(membership)
        } else {
            None
        },
        Err(_) => None,
    }
}

/// Checks the answer to the lookup of `user`'s membership in `website_id`:
/// the admin membership found, if any.
fn admin_grant(user: &User, website_id: i32, row: Result<(UserWebsite, Website), DbError>) -> (grant: Option<UserWebsite>)
    ensures
        grant == grant_from(*user, website_id, row),
        grant is Some ==> grants_admin(*user, website_id, grant),
{
    match row {
        Ok((membership, website)) => {
            if membership.user_id == user.id && membership.website_id == website_id && website.id == website_id
                && membership.admin {
                Some(membership)
            } else {
                None
            }
        },
        Err(_) => None,
    }
}

/// A website's administration page, which only its administrators may see:
/// the rights of the logged-in user are checked (a superadmin needs no
/// lookup), then the website and its members are loaded.
#[derive(Debug)]
pub enum ManageWebsiteAdmin {
    CheckingAdmin { website_id: i32, login: UserLogin },
    LoadingWebsite { website_id: i32 },
    LoadingUsers { website_id: i32, website: Website },
}

/// Starts the administration page of `website_id`.
pub fn manage_website_admin(website_id: i32, login: UserLogin) -> (step: Step<ManageWebsiteAdmin, Reply>)
    ensures
        step matches Step::Run(next, query) ==> forall|a: Answer| #[trigger] answers(query, a) ==> next.expects(a),
        step == if login.user.superadmin {
            Step::<ManageWebsiteAdmin, Reply>::Run(
                ManageWebsiteAdmin::LoadingWebsite { website_id: website_id },
                Query::WebsiteById { website_id: website_id },
            )
        } else {
            Step::<ManageWebsiteAdmin, Reply>::Run(
                ManageWebsiteAdmin::CheckingAdmin { website_id: website_id, login: login },
                Query::MembershipOf { user_id: login.user.id, website_id: website_id },
            )
        },
{
    if login.user.superadmin {
        Step::Run(ManageWebsiteAdmin::LoadingWebsite { website_id: website_id }, Query::WebsiteById { website_id: website_id })
    } else {
        let user_id = login.user.id;
        Step::Run(
            ManageWebsiteAdmin::CheckingAdmin { website_id: website_id, login: login },
            Query::MembershipOf { user_id: user_id, website_id: website_id },
        )
    }
}

impl ManageWebsiteAdmin {
    /// `answer` is what the query that this state waits for gets.
    pub open spec fn expects(self, answer: Answer) -> bool {
        match self {
            ManageWebsiteAdmin::CheckingAdmin { .. } => answer is Membership,
            ManageWebsiteAdmin::LoadingWebsite { .. } => answer is Website,
            ManageWebsiteAdmin::LoadingUsers { .. } => answer is Members,
        }
    }

    /// The transition from this state on `answer` to `step`: a user who may
    /// not administer the website is forbidden; a website or member list that
    /// cannot be loaded is an internal error.
    pub open spec fn next(self, answer: Answer, step: Step<ManageWebsiteAdmin, Reply>) -> bool {
        match self {
            ManageWebsiteAdmin::CheckingAdmin { website_id, login } => match answer {
                Answer::Membership(row) => if login.user.superadmin || membership_of(login.user.id, website_id, row) matches Some((true, _)) {
                    step == Step::<ManageWebsiteAdmin, Reply>::Run(
                        ManageWebsiteAdmin::LoadingWebsite { website_id: website_id },
                        Query::WebsiteById { website_id: website_id },
                    )
                } else {
                    step == Step::<ManageWebsiteAdmin, Reply>::Done(Reply::Fail(Status::Forbidden))
                },
                _ => false,
            },
            ManageWebsiteAdmin::LoadingWebsite { website_id } => match answer {
                Answer::Website(Ok(website)) => if website.id == website_id {
                    step == Step::<ManageWebsiteAdmin, Reply>::Run(
                        ManageWebsiteAdmin::LoadingUsers { website_id: website_id, website: website },
                        Query::UsersOfWebsite { website_id: website_id },
                    )
                } else {
                    step == Step::<ManageWebsiteAdmin, Reply>::Done(Reply::Fail(Status::InternalServerError))
                },
                _ => step == Step::<ManageWebsiteAdmin, Reply>::Done(Reply::Fail(Status::InternalServerError)),
            },
            ManageWebsiteAdmin::LoadingUsers { website_id, website } => match answer {
                Answer::Members(Ok(rows)) => match step {
                    Step::Done(Reply::Render(Page::ManageWebsiteAdmin(context))) => {
                        &&& context.user_listings@ == user_listings(website_members(website.id, rows@))
                        &&& context.title == website.name
                        &&& context.website_id == website_id
                    },
                    _ => false,
                },
                _ => step == Step::<ManageWebsiteAdmin, Reply>::Done(Reply::Fail(Status::InternalServerError)),
            },
        }
    }

    /// Continues the page with the answer to the last query.
    pub fn resume(self, answer: Answer) -> (step: Step<ManageWebsiteAdmin, Reply>)
        requires
            self.expects(answer),
        ensures
            step matches Step::Run(next, query) ==> forall|a: Answer| #[trigger] answers(query, a) ==> next.expects(a),
            self.next(answer, step),
    {
        match self {
            ManageWebsiteAdmin::CheckingAdmin { website_id, login } => match answer {
                Answer::Membership(row) => {
                    if login.user.is_admin_of(website_id, row) {
                        Step::Run(
                            ManageWebsiteAdmin::LoadingWebsite { website_id: website_id },
                            Query::WebsiteById { website_id: website_id },
                        )
                    } else {
                        Step::Done(Reply::Fail(Status::Forbidden))
                    }
                },
                _ => Step::Done(Reply::Fail(Status::Forbidden)),
            },
            ManageWebsiteAdmin::LoadingWebsite { website_id } => match answer {
                Answer::Website(Ok(website)) => {
                    if website.id == website_id {
                        Step::Run(
                            ManageWebsiteAdmin::LoadingUsers { website_id: website_id, website: website },
                            Query::UsersOfWebsite { website_id: website_id },
                        )
                    } else {
                        Step::Done(Reply::Fail(Status::InternalServerError))
                    }
                },
                _ => Step::Done(Reply::Fail(Status::InternalServerError)),
            },
            ManageWebsiteAdmin::LoadingUsers { website_id, website } => match answer {
                Answer::Members(Ok(rows)) => {
                    let members = website.get_users(rows);
                    let context = PageContext {
                        user_listings: to_user_listings(members),
                        title: website.name,
                        website_id: website_id,
                    };
                    Step::Done(Reply::Render(Page::ManageWebsiteAdmin(context)))
                },
                _ => Step::Done(Reply::Fail(Status::InternalServerError)),
            },
        }
    }
}

/// Adding a user, by name, to a website, which only its administrators may
/// do: the rights of the logged-in user are checked (a superadmin needs no
/// lookup), the website and the user are loaded, then the membership is
/// inserted. `grant` is what showed the rights.
#[derive(Debug)]
pub enum ManageWebsiteNewUser {
    CheckingAdmin { website_id: i32, form: NewUserForm, login: UserLogin },
    LoadingWebsite { website_id: i32, form: NewUserForm, login: UserLogin, grant: Option<UserWebsite> },
    LoadingUser { website_id: i32, admin: bool, username: String, login: UserLogin, grant: Option<UserWebsite>, website: Website },
    Adding { website_id: i32 },
}

/// Starts adding the user named in `form` to `website_id`.
pub fn manage_website_new_user(website_id: i32, form: NewUserForm, login: UserLogin) -> (step: Step<ManageWebsiteNewUser, Reply>)
    ensures
        step matches Step::Run(next, query) ==> forall|a: Answer| #[trigger] answers(query, a) ==> next.expects(a),
        step == if login.user.superadmin {
            Step::<ManageWebsiteNewUser, Reply>::Run(
                ManageWebsiteNewUser::LoadingWebsite { website_id: website_id, form: form, login: login, grant: None },
                Query::WebsiteById { website_id: website_id },
            )
        } else {
            Step::<ManageWebsiteNewUser, Reply>::Run(
                ManageWebsiteNewUser::CheckingAdmin { website_id: website_id, form: form, login: login },
                Query::MembershipOf { user_id: login.user.id, website_id: website_id },
            )
        },
        step matches Step::Run(state, _) ==> state.authorized(),
{
    if login.user.superadmin {
        Step::Run(
            ManageWebsiteNewUser::LoadingWebsite { website_id: website_id, form: form, login: login, grant: None },
            Query::WebsiteById { website_id: website_id },
        )
    } else {
        let user_id = login.user.id;
        Step::Run(
            ManageWebsiteNewUser::CheckingAdmin { website_id: website_id, form: form, login: login },
            Query::MembershipOf { user_id: user_id, website_id: website_id },
        )
    }
}

impl ManageWebsiteNewUser {
    /// Past the rights check, the state holds what showed that the logged-in
    /// user may administer the website.
    pub open spec fn authorized(self) -> bool {
        match self {
            ManageWebsiteNewUser::CheckingAdmin { .. } => true,
            ManageWebsiteNewUser::LoadingWebsite { website_id, login, grant, .. } => grants_admin(login.user, website_id, grant),
            ManageWebsiteNewUser::LoadingUser { website_id, login, grant, website, .. } => {
                &&& grants_admin(login.user, website_id, grant)
                &&& website.id == website_id
            },
            ManageWebsiteNewUser::Adding { .. } => true,
        }
    }

    /// `answer` is what the query that this state waits for gets.
    pub open spec fn expects(self, answer: Answer) -> bool {
        match self {
            ManageWebsiteNewUser::CheckingAdmin { .. } => answer is Membership,
            ManageWebsiteNewUser::LoadingWebsite { .. } => answer is Website,
            ManageWebsiteNewUser::LoadingUser { .. } => answer is User,
            ManageWebsiteNewUser::Adding { .. } => answer is Affected,
        }
    }

    /// The transition from this state on `answer` to `step`: a user who may
    /// not administer the website is forbidden; a website that cannot be
    /// loaded is an internal error; an unknown user name sends back to the
    /// administration page noting it; a failed insert is an internal error;
    /// otherwise the membership is inserted and the administration page
    /// shown.
    pub open spec fn next(self, answer: Answer, step: Step<ManageWebsiteNewUser, Reply>) -> bool {
        match self {
            ManageWebsiteNewUser::CheckingAdmin { website_id, form, login } => match answer {
                Answer::Membership(row) => if grant_from(login.user, website_id, row) is Some {
                    step == Step::<ManageWebsiteNewUser, Reply>::Run(
                        ManageWebsiteNewUser::LoadingWebsite {
                            website_id: website_id,
                            form: form,
                            login: login,
                            grant: grant_from(login.user, website_id, row),
                        },
                        Query::WebsiteById { website_id: website_id },
                    )
                } else {
                    step == Step::<ManageWebsiteNewUser, Reply>::Done(Reply::Fail(Status::Forbidden))
                },
                _ => false,
            },
            ManageWebsiteNewUser::LoadingWebsite { website_id, form, login, grant } => match answer {
                Answer::Website(Ok(website)) => if website.id == website_id {
                    match step {
                        Step::Run(
                            ManageWebsiteNewUser::LoadingUser { website_id: w, admin, username, login: l, grant: g, website: site },
                            Query::UserByName { username: wanted },
                        ) => {
                            &&& w == website_id
                            &&& admin == form.admin
                            &&& username == form.name
                            &&& wanted == form.name
                            &&& l == login
                            &&& g == grant
                            &&& site == website
                        },
                        _ => false,
                    }
                } else {
                    step == Step::<ManageWebsiteNewUser, Reply>::Done(Reply::Fail(Status::InternalServerError))
                },
                _ => step == Step::<ManageWebsiteNewUser, Reply>::Done(Reply::Fail(Status::InternalServerError)),
            },
            ManageWebsiteNewUser::LoadingUser { website_id, admin, username, website, .. } => match answer {
                Answer::User(Ok(user)) => if user.username@ == username@ {
                    step == Step::<ManageWebsiteNewUser, Reply>::Run(
                        ManageWebsiteNewUser::Adding { website_id: website_id },
                        Query::InsertMembership {
                            membership: UserWebsite { user_id: user.id, website_id: website.id, admin: admin },
                        },
                    )
                } else {
                    step matches Step::Done(Reply::Redirect(url)) && url@ == wrong_user_url(website_id)
                },
                _ => step matches Step::Done(Reply::Redirect(url)) && url@ == wrong_user_url(website_id),
            },
            ManageWebsiteNewUser::Adding { website_id } => match answer {
                Answer::Affected(Ok(_)) => step matches Step::Done(Reply::Redirect(url)) && url@ == admin_url(website_id),
                _ => step == Step::<ManageWebsiteNewUser, Reply>::Done(Reply::Fail(Status::InternalServerError)),
            },
        }
    }

    /// Continues adding the user with the answer to the last query.
    pub fn resume(self, answer: Answer) -> (step: Step<ManageWebsiteNewUser, Reply>)
        requires
            self.authorized(),
            self.expects(answer),
        ensures
            step matches Step::Run(next, query) ==> forall|a: Answer| #[trigger] answers(query, a) ==> next.expects(a),
            self.next(answer, step),
            step matches Step::Run(state, _) ==> state.authorized(),
    {
        match self {
            ManageWebsiteNewUser::CheckingAdmin { website_id, form, login } => match answer {
                Answer::Membership(row) => {
                    let grant = admin_grant(&login.user, website_id, row);
                    if grant.is_some() {
                        Step::Run(
                            ManageWebsiteNewUser::LoadingWebsite { website_id: website_id, form: form, login: login, grant: grant },
                            Query::WebsiteById { website_id: website_id },
                        )
                    } else {
                        Step::Done(Reply::Fail(Status::Forbidden))
                    }
                },
                _ => Step::Done(Reply::Fail(Status::Forbidden)),
            },
            ManageWebsiteNewUser::LoadingWebsite { website_id, form, login, grant } => match answer {
                Answer::Website(Ok(website)) => {
                    if website.id == website_id {
                        let NewUserForm { submit: _, name, admin } = form;
                        let wanted = name.clone();
                        Step::Run(
                            ManageWebsiteNewUser::LoadingUser {
                                website_id: website_id,
                                admin: admin,
                                username: name,
                                login: login,
                                grant: grant,
                                website: website,
                            },
                            Query::UserByName { username: wanted },
                        )
                    } else {
                        Step::Done(Reply::Fail(Status::InternalServerError))
                    }
                },
                _ => Step::Done(Reply::Fail(Status::InternalServerError)),
            },
            ManageWebsiteNewUser::LoadingUser { website_id, admin, username, website, .. } => match answer {
                Answer::User(Ok(user)) => {
                    if user.username == username {
                        let membership = website.new_membership(&user, admin);
                        Step::Run(ManageWebsiteNewUser::Adding { website_id: website_id }, Query::InsertMembership { membership: membership })
                    } else {
                        Step::Done(Reply::Redirect(website_url(website_id, "/admin?wrong_user")))
                    }
                },
                _ => Step::Done(Reply::Redirect(website_url(website_id, "/admin?wrong_user"))),
            },
            ManageWebsiteNewUser::Adding { website_id } => match answer {
                Answer::Affected(Ok(_)) => Step::Done(Reply::Redirect(website_url(website_id, "/admin"))),
                _ => Step::Done(Reply::Fail(Status::InternalServerError)),
            },
        }
    }
}

/// Creating a website, which only superadmins may do.
#[derive(Debug)]
pub struct NewWebsiteSubmit;

/// Starts creating the website named in `form`: a user who is not a
/// superadmin is forbidden and nothing is inserted; otherwise the website is
/// inserted.
pub fn new_website_submit(form: FieldSubmitForm, login: UserLogin) -> (step: Step<NewWebsiteSubmit, Reply>)
    ensures
        step matches Step::Run(next, query) ==> forall|a: Answer| #[trigger] answers(query, a) ==> next.expects(a),
        step == if login.user.superadmin {
            Step::<NewWebsiteSubmit, Reply>::Run(NewWebsiteSubmit, Query::InsertWebsite { name: form.value })
        } else {
            Step::<NewWebsiteSubmit, Reply>::Done(Reply::Fail(Status::Forbidden))
        },
{
    if !login.user.superadmin {
        return Step::Done(Reply::Fail(Status::Forbidden));
    }
    Step::Run(NewWebsiteSubmit, Query::InsertWebsite { name: form.value })
}

impl NewWebsiteSubmit {
    /// `answer` is what the query that this state waits for gets.
    pub open spec fn expects(self, answer: Answer) -> bool {
        answer is Website
    }

    /// The transition on `answer` to `step`: to the new website's
    /// administration page once it is stored, back to `/manage` otherwise.
    pub open spec fn next(self, answer: Answer, step: Step<NewWebsiteSubmit, Reply>) -> bool {
        match answer {
            Answer::Website(Ok(website)) => step matches Step::Done(Reply::Redirect(url)) && url@ == admin_url(website.id),
            _ => step matches Step::Done(Reply::Redirect(url)) && url@ == "/manage"@,
        }
    }

    /// Finishes creating the website.
    pub fn resume(self, answer: Answer) -> (step: Step<NewWebsiteSubmit, Reply>)
        requires
            self.expects(answer),
        ensures
            self.next(answer, step),
    {
        match answer {
            Answer::Website(Ok(website)) => Step::Done(Reply::Redirect(website_url(website.id, "/admin"))),
            _ => Step::Done(Reply::Redirect(String::from_str("/manage"))),
        }
    }
}


/// A request for a website's management page by a user who is not a member
/// of the website is answered forbidden, and nothing more is loaded.
pub proof fn non_member_is_forbidden(
    page: String,
    website_id: i32,
    login: UserLogin,
    row: Result<(UserWebsite, Website), DbError>,
    step: Step<ManageWebsite, Reply>,
)
    requires
        membership_of(login.user.id, website_id, row) is None,
        (ManageWebsite::CheckingMembership { page: page, website_id: website_id, login: login }).next(
            Answer::Membership(row),
            step,
        ),
    ensures
        step == Step::<ManageWebsite, Reply>::Done(Reply::Fail(Status::Forbidden)),
{
}

/// A request for a website's administration page by a user who is neither a
/// superadmin nor an administrator of the website is answered forbidden
/// after the membership lookup, and nothing more is loaded.
pub proof fn non_admin_is_forbidden(
    website_id: i32,
    login: UserLogin,
    row: Result<(UserWebsite, Website), DbError>,
    first: Step<ManageWebsiteAdmin, Reply>,
    second: Step<ManageWebsiteAdmin, Reply>,
)
    requires
        !login.user.superadmin,
        !(membership_of(login.user.id, website_id, row) matches Some((true, _))),
        first == Step::<ManageWebsiteAdmin, Reply>::Run(
            ManageWebsiteAdmin::CheckingAdmin { website_id: website_id, login: login },
            Query::MembershipOf { user_id: login.user.id, website_id: website_id },
        ),
        first matches Step::Run(state, _) && state.next(Answer::Membership(row), second),
    ensures
        second == Step::<ManageWebsiteAdmin, Reply>::Done(Reply::Fail(Status::Forbidden)),
{
}

/// Adding a user to a website: a user who is neither a superadmin nor an
/// administrator of the website is answered forbidden after the membership
/// lookup, and no membership is inserted.
pub proof fn non_admin_cannot_add_members(
    website_id: i32,
    form: NewUserForm,
    login: UserLogin,
    row: Result<(UserWebsite, Website), DbError>,
    step: Step<ManageWebsiteNewUser, Reply>,
)
    requires
        !(membership_of(login.user.id, website_id, row) matches Some((true, _))),
        (ManageWebsiteNewUser::CheckingAdmin { website_id: website_id, form: form, login: login }).next(
            Answer::Membership(row),
            step,
        ),
    ensures
        step == Step::<ManageWebsiteNewUser, Reply>::Done(Reply::Fail(Status::Forbidden)),
{
}

/// Whatever the database answers, a membership is inserted into a website
/// only on behalf of a user who may administer it: a superadmin, or the
/// holder of an admin membership of that website; and the inserted
/// membership is one of that website.
pub proof fn members_are_added_only_by_admins(
    state: ManageWebsiteNewUser,
    answer: Answer,
    next_state: ManageWebsiteNewUser,
    membership: UserWebsite,
)
    requires
        state.authorized(),
        state.next(answer, Step::Run(next_state, Query::InsertMembership { membership: membership })),
    ensures
        state matches ManageWebsiteNewUser::LoadingUser { website_id, login, grant, .. }
            && grants_admin(login.user, website_id, grant) && membership.website_id == website_id,
{
}


/// The home page's websites list shows, in order, exactly the websites of
/// the user's memberships: entry `i` has the admin flag, id and name of the
/// `i`-th website that `get_websites` gives for `rows`; and every entry comes
/// from a row of `rows` that is a membership of `user_id` with that admin
/// flag, joined with that website.
pub open spec fn lists_memberships(list: Seq<WebsiteContext>, user_id: i32, rows: Seq<(UserWebsite, Website)>) -> bool {
    let websites = user_websites(user_id, rows);
    &&& list.len() == websites.len()
    &&& forall|i: int| 0 <= i < list.len() ==> {
        &&& (#[trigger] list[i]).admin == websites[i].0
        &&& list[i].website_id == websites[i].1.id
        &&& list[i].website_name == websites[i].1.name
    }
    &&& forall|i: int| #![trigger list[i]] 0 <= i < list.len() ==> exists|k: int| {
        &&& 0 <= k < rows.len()
        &&& (#[trigger] rows[k]).0.user_id == user_id
        &&& rows[k].0.website_id == rows[k].1.id
        &&& rows[k].0.admin == list[i].admin
        &&& rows[k].1.id == list[i].website_id
        &&& rows[k].1.name == list[i].website_name
    }
}

/// The administration page's member list shows, in order, exactly the
/// website's members: listing `i` has the admin flag, name and id of the
/// `i`-th member that `get_users` gives for `rows`; and every listing comes
/// from a row of `rows` that is a membership of `website_id` with that admin
/// flag, joined with that user.
pub open spec fn lists_members(list: Seq<UserListing>, website_id: i32, rows: Seq<(UserWebsite, User)>) -> bool {
    let members = website_members(website_id, rows);
    &&& list.len() == members.len()
    &&& forall|i: int| 0 <= i < list.len() ==> {
        &&& (#[trigger] list[i]).admin == members[i].0
        &&& list[i].name == members[i].1.username
        &&& list[i].id == members[i].1.id
    }
    &&& forall|i: int| #![trigger list[i]] 0 <= i < list.len() ==> exists|k: int| {
        &&& 0 <= k < rows.len()
        &&& (#[trigger] rows[k]).0.website_id == website_id
        &&& rows[k].0.user_id == rows[k].1.id
        &&& rows[k].0.admin == list[i].admin
        &&& rows[k].1.id == list[i].id
        &&& rows[k].1.username == list[i].name
    }
}

/// The management home page lists exactly the websites of the user's
/// memberships, each with the admin flag of its membership (see
/// `lists_memberships`), and whether the user is a superadmin.
pub proof fn home_page_shows_memberships(home: ManageHome, rows: Vec<(UserWebsite, Website)>, step: Step<ManageHome, Reply>)
    requires
        home.next(Answer::Websites(Ok(rows)), step),
    ensures
        step matches Step::Done(Reply::Render(Page::ManageHome(context)))
            && lists_memberships(context.websites@, home.user.id, rows@) && context.superadmin == home.user.superadmin,
{
    if let Step::Done(Reply::Render(Page::ManageHome(context))) = step {
        let list = context.websites@;
        let websites = user_websites(home.user.id, rows@);
        assert forall|i: int| 0 <= i < list.len() implies {
            &&& (#[trigger] list[i]).admin == websites[i].0
            &&& list[i].website_id == websites[i].1.id
            &&& list[i].website_name == websites[i].1.name
        } by {
            assert(list[i] == site_list(websites)[i]);
        }
        assert forall|i: int| #![trigger list[i]] 0 <= i < list.len() implies exists|k: int| {
            &&& 0 <= k < rows@.len()
            &&& (#[trigger] rows@[k]).0.user_id == home.user.id
            &&& rows@[k].0.website_id == rows@[k].1.id
            &&& rows@[k].0.admin == list[i].admin
            &&& rows@[k].1.id == list[i].website_id
            &&& rows@[k].1.name == list[i].website_name
        } by {
            assert(websites.contains(websites[i]));
            lemma_user_websites_from_row(home.user.id, rows@, websites[i]);
            let m = choose|m: UserWebsite| #[trigger] rows@.contains((m, websites[i].1)) && m.user_id == home.user.id
                && m.website_id == websites[i].1.id && m.admin == websites[i].0;
            let k = choose|k: int| 0 <= k < rows@.len() && rows@[k] == (m, websites[i].1);
            assert(rows@[k] == (m, websites[i].1));
        }
        assert(lists_memberships(list, home.user.id, rows@));
    }
}

/// A website's administration page lists exactly the website's members,
/// each with the admin flag of their membership (see `lists_members`).
pub proof fn admin_page_shows_members(
    website_id: i32,
    website: Website,
    rows: Vec<(UserWebsite, User)>,
    step: Step<ManageWebsiteAdmin, Reply>,
)
    requires
        (ManageWebsiteAdmin::LoadingUsers { website_id: website_id, website: website }).next(Answer::Members(Ok(rows)), step),
    ensures
        step matches Step::Done(Reply::Render(Page::ManageWebsiteAdmin(context)))
            && lists_members(context.user_listings@, website.id, rows@) && context.title == website.name
            && context.website_id == website_id,
{
    if let Step::Done(Reply::Render(Page::ManageWebsiteAdmin(context))) = step {
        let list = context.user_listings@;
        let members = website_members(website.id, rows@);
        assert forall|i: int| 0 <= i < list.len() implies {
            &&& (#[trigger] list[i]).admin == members[i].0
            &&& list[i].name == members[i].1.username
            &&& list[i].id == members[i].1.id
        } by {
            assert(list[i] == user_listings(members)[i]);
        }
        assert forall|i: int| #![trigger list[i]] 0 <= i < list.len() implies exists|k: int| {
            &&& 0 <= k < rows@.len()
            &&& (#[trigger] rows@[k]).0.website_id == website.id
            &&& rows@[k].0.user_id == rows@[k].1.id
            &&& rows@[k].0.admin == list[i].admin
            &&& rows@[k].1.id == list[i].id
            &&& rows@[k].1.username == list[i].name
        } by {
            assert(members.contains(members[i]));
            lemma_website_members_from_row(website.id, rows@, members[i]);
            let m = choose|m: UserWebsite| #[trigger] rows@.contains((m, members[i].1)) && m.website_id == website.id
                && m.user_id == members[i].1.id && m.admin == members[i].0;
            let k = choose|k: int| 0 <= k < rows@.len() && rows@[k] == (m, members[i].1);
            assert(rows@[k] == (m, members[i].1));
        }
        assert(lists_members(list, website.id, rows@));
    }
}

/// Every member of a website gets its management page, administrator or
/// not: when the membership lookup finds the user's membership of the
/// website, the handler goes on to load the website and is not forbidden.
pub proof fn members_get_the_website_page(
    page: String,
    website_id: i32,
    login: UserLogin,
    membership: UserWebsite,
    website: Website,
    step: Step<ManageWebsite, Reply>,
)
    requires
        membership.user_id == login.user.id,
        membership.website_id == website_id,
        website.id == website_id,
        (ManageWebsite::CheckingMembership { page: page, website_id: website_id, login: login }).next(
            Answer::Membership(Ok((membership, website))),
            step,
        ),
    ensures
        step matches Step::Run(ManageWebsite::LoadingWebsite { .. }, Query::WebsiteById { website_id: id }) && id == website_id,
{
}

} // verus!
