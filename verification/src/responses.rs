//! What request handlers answer: a failure status, a redirect, or a page
//! rendered from a template and its context.

use vstd::prelude::*;

verus! {

/// The failure statuses that handlers answer with.
#[derive(Clone, Copy, Debug, PartialEq, Eq)]
pub enum Status {
    Unauthorized,
    Forbidden,
    NotFound,
    InternalServerError,
}

/// One website in the list on the management home page.
#[derive(Debug)]
pub struct WebsiteContext {
    pub admin: bool,
    pub website_id: i32,
    pub website_name: String,
}

/// Context of the management home page.
#[derive(Debug)]
pub struct SiteListContext {
    pub websites: Vec<WebsiteContext>,
    pub superadmin: bool,
}

/// Context of a website's management page.
#[derive(Debug)]
pub struct WebsitePageContext {
    pub title: String,
    pub website_id: String,
    pub website_name: String,
    pub session_key: String,
}

/// One member in the list on a website's administration page.
#[derive(Debug)]
pub struct UserListing {
    pub admin: bool,
    pub name: String,
    pub id: i32,
}

/// Context of a website's administration page.
#[derive(Debug)]
pub struct PageContext {
    pub user_listings: Vec<UserListing>,
    pub title: String,
    pub website_id: i32,
}

/// Context of the login page.
#[derive(Debug)]
pub struct LoginContext {
    pub title: String,
    pub reason: Option<&'static str>,
}

/// A page to render: the template and its context.
#[derive(Debug)]
pub enum Page {
    /// Template `pages/manage_home`.
    ManageHome(SiteListContext),
    /// Template `pages/manage_website`.
    ManageWebsite(WebsitePageContext),
    /// Template `pages/manage_website_admin`.
    ManageWebsiteAdmin(PageContext),
    /// Template `pages/new_website`, with an empty context.
    NewWebsite,
    /// Template `login`.
    Login(LoginContext),
}

impl Page {
    /// The template that renders this page.
    pub fn template(&self) -> (name: &'static str)
        ensures
            name@ == match self {
                Page::ManageHome(_) => "pages/manage_home"@,
                Page::ManageWebsite(_) => "pages/manage_website"@,
                Page::ManageWebsiteAdmin(_) => "pages/manage_website_admin"@,
                Page::NewWebsite => "pages/new_website"@,
                Page::Login(_) => "login"@,
            },
    {
        match self {
            Page::ManageHome(_) => "pages/manage_home",
            Page::ManageWebsite(_) => "pages/manage_website",
            Page::ManageWebsiteAdmin(_) => "pages/manage_website_admin",
            Page::NewWebsite => "pages/new_website",
            Page::Login(_) => "login",
        }
    }
}

/// The answer to a request.
#[derive(Debug)]
pub enum Reply {
    /// Fail with this status.
    Fail(Status),
    /// Redirect to this URL.
    Redirect(String),
    /// Set the session cookie to this key and redirect to `/manage`.
    SignIn(String),
    /// Render this page.
    Render(Page),
    /// Clear the session cookie, then answer with this reply.
    SignOut(Box<Reply>),
}

} // verus!
