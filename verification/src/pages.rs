//! The site's pages: each is a template rendered with a title.

use vstd::prelude::*;
use crate::error::{AppError, ExternalFailure, ExternalFailureView, failure_error};
use crate::http::{BodyView, Reply, ReplyView, page_reply};
use crate::error::STATUS_OK;
use crate::templates::{RenderRequest, Rendering, context_texts, insert_text, new_context, no_texts, tera_render};
use tera::{Context, Tera};

verus! {

/// The context a page is rendered with: its title under the key `title`.
pub open spec fn title_context(title: Seq<char>) -> Map<Seq<char>, Seq<char>> {
    no_texts().insert("title"@, title)
}

/// The context that holds `title` under the key `title`.
pub fn page_context(title: &str) -> (c: Context)
    ensures
        context_texts(c) == title_context(title@),
{
    let mut c = new_context();
    insert_text(&mut c, "title", title);
    c
}

/// A page of the site, served on `GET`.
#[derive(Clone, Copy, Debug)]
pub enum Page {
    Index,
    Home,
    About,
    Installations,
    Features,
    Contact,
    ApiReference,
    Blog,
    Careers,
    Community,
    Documentation,
    GettingStarted,
    Pricing,
    Releases,
    Tutorials,
    Support,
    Dashboard,
    Droom,
    Signup,
    Login,
    UsernameSetup,
}

/// The template a page is rendered from.
pub open spec fn page_template(p: Page) -> Seq<char> {
    match p {
        Page::Index => "index.html"@,
        Page::Home => "home.html"@,
        Page::About => "about.html"@,
        Page::Installations => "installation.html"@,
        Page::Features => "features.html"@,
        Page::Contact => "contact.html"@,
        Page::ApiReference => "apireference.html"@,
        Page::Blog => "blog.html"@,
        Page::Careers => "careers.html"@,
        Page::Community => "community.html"@,
        Page::Documentation => "documentation.html"@,
        Page::GettingStarted => "gettingstarted.html"@,
        Page::Pricing => "pricing.html"@,
        Page::Releases => "releases.html"@,
        Page::Tutorials => "tutorials.html"@,
        Page::Support => "support.html"@,
        Page::Dashboard => "dashboard.html"@,
        Page::Droom => "droom.html"@,
        Page::Signup => "signup.html"@,
        Page::Login => "login.html"@,
        Page::UsernameSetup => "username_setup.html"@,
    }
}

/// The title a page is rendered with.
pub open spec fn page_title(p: Page) -> Seq<char> {
    match p {
        Page::Index => "JRep"@,
        Page::Home => "Home"@,
        Page::About => "About"@,
        Page::Installations => "Installations"@,
        Page::Features => "Features"@,
        Page::Contact => "Contact"@,
        Page::ApiReference => "API Reference"@,
        Page::Blog => "Blog"@,
        Page::Careers => "Careers"@,
        Page::Community => "Community"@,
        Page::Documentation => "Documentation"@,
        Page::GettingStarted => "Getting Started"@,
        Page::Pricing => "Pricing"@,
        Page::Releases => "Releases"@,
        Page::Tutorials => "Tutorials"@,
        Page::Support => "Support"@,
        Page::Dashboard => "Dashboard"@,
        Page::Droom => "Droom"@,
        Page::Signup => "Sign Up"@,
        Page::Login => "Log In"@,
        Page::UsernameSetup => "Choose Username"@,
    }
}

/// The path a page is served on.
pub open spec fn page_path(p: Page) -> Seq<char> {
    match p {
        Page::Index => "/index"@,
        Page::Home => "/"@,
        Page::About => "/about"@,
        Page::Installations => "/installations"@,
        Page::Features => "/features"@,
        Page::Contact => "/contact"@,
        Page::ApiReference => "/apireference"@,
        Page::Blog => "/blog"@,
        Page::Careers => "/careers"@,
        Page::Community => "/community"@,
        Page::Documentation => "/documentation"@,
        Page::GettingStarted => "/gettingstarted"@,
        Page::Pricing => "/pricing"@,
        Page::Releases => "/releases"@,
        Page::Tutorials => "/tutorials"@,
        Page::Support => "/support"@,
        Page::Dashboard => "/dashboard"@,
        Page::Droom => "/droom"@,
        Page::Signup => "/signup"@,
        Page::Login => "/login"@,
        Page::UsernameSetup => "/username-setup"@,
    }
}

impl Page {
    /// Every page, in the order the site registers its routes.
    pub fn all() -> (r: Vec<Page>)
        ensures
            r@.len() == 21,
            forall|p: Page| #[trigger] r@.contains(p),
    {
        let mut v: Vec<Page> = Vec::new();
        v.push(Page::Home);
        v.push(Page::Index);
        v.push(Page::About);
        v.push(Page::Installations);
        v.push(Page::Features);
        v.push(Page::Contact);
        v.push(Page::ApiReference);
        v.push(Page::Blog);
        v.push(Page::Careers);
        v.push(Page::Community);
        v.push(Page::Documentation);
        v.push(Page::GettingStarted);
        v.push(Page::Pricing);
        v.push(Page::Releases);
        v.push(Page::Support);
        v.push(Page::Tutorials);
        v.push(Page::Dashboard);
        v.push(Page::Droom);
        v.push(Page::Signup);
        v.push(Page::Login);
        v.push(Page::UsernameSetup);
        proof {
            assert forall|p: Page| #[trigger] v@.contains(p) by {
                match p {
                    Page::Home => assert(v@[0] == p),
                    Page::Index => assert(v@[1] == p),
                    Page::About => assert(v@[2] == p),
                    Page::Installations => assert(v@[3] == p),
                    Page::Features => assert(v@[4] == p),
                    Page::Contact => assert(v@[5] == p),
                    Page::ApiReference => assert(v@[6] == p),
                    Page::Blog => assert(v@[7] == p),
                    Page::Careers => assert(v@[8] == p),
                    Page::Community => assert(v@[9] == p),
                    Page::Documentation => assert(v@[10] == p),
                    Page::GettingStarted => assert(v@[11] == p),
                    Page::Pricing => assert(v@[12] == p),
                    Page::Releases => assert(v@[13] == p),
                    Page::Support => assert(v@[14] == p),
                    Page::Tutorials => assert(v@[15] == p),
                    Page::Dashboard => assert(v@[16] == p),
                    Page::Droom => assert(v@[17] == p),
                    Page::Signup => assert(v@[18] == p),
                    Page::Login => assert(v@[19] == p),
                    Page::UsernameSetup => assert(v@[20] == p),
                }
            }
        }
        v
    }

    /// The page served on `path`, if any.
    pub fn for_path(path: &str) -> (r: Option<Page>)
        ensures
            match r {
                Some(p) => page_path(p) == path@,
                None => forall|p: Page| page_path(p) != path@,
            },
    {
        let all = Page::all();
        let target = path.to_owned();
        let n = all.len();
        let mut i: usize = 0;
        while i < n
            invariant
                n == all@.len(),
                target@ == path@,
                forall|p: Page| #[trigger] all@.contains(p),
                i <= n,
                forall|j: int| 0 <= j < i ==> page_path(#[trigger] all@[j]) != path@,
            decreases n - i,
        {
            let candidate = all[i].path().to_owned();
            if candidate == target {
                return Some(all[i]);
            }
            i = i + 1;
        }
        proof {
            assert forall|p: Page| page_path(p) != path@ by {
                assert(all@.contains(p));
                let j = choose|j: int| 0 <= j < all@.len() && all@[j] == p;
                assert(page_path(all@[j]) != path@);
            }
        }
        None
    }

    /// The template the page is rendered from.
    pub fn template(&self) -> (r: &'static str)
        ensures
            r@ == page_template(*self),
    {
        match self {
            Page::Index => "index.html",
            Page::Home => "home.html",
            Page::About => "about.html",
            Page::Installations => "installation.html",
            Page::Features => "features.html",
            Page::Contact => "contact.html",
            Page::ApiReference => "apireference.html",
            Page::Blog => "blog.html",
            Page::Careers => "careers.html",
            Page::Community => "community.html",
            Page::Documentation => "documentation.html",
            Page::GettingStarted => "gettingstarted.html",
            Page::Pricing => "pricing.html",
            Page::Releases => "releases.html",
            Page::Tutorials => "tutorials.html",
            Page::Support => "support.html",
            Page::Dashboard => "dashboard.html",
            Page::Droom => "droom.html",
            Page::Signup => "signup.html",
            Page::Login => "login.html",
            Page::UsernameSetup => "username_setup.html",
        }
    }

    /// The title the page is rendered with.
    pub fn title(&self) -> (r: &'static str)
        ensures
            r@ == page_title(*self),
    {
        match self {
            Page::Index => "JRep",
            Page::Home => "Home",
            Page::About => "About",
            Page::Installations => "Installations",
            Page::Features => "Features",
            Page::Contact => "Contact",
            Page::ApiReference => "API Reference",
            Page::Blog => "Blog",
            Page::Careers => "Careers",
            Page::Community => "Community",
            Page::Documentation => "Documentation",
            Page::GettingStarted => "Getting Started",
            Page::Pricing => "Pricing",
            Page::Releases => "Releases",
            Page::Tutorials => "Tutorials",
            Page::Support => "Support",
            Page::Dashboard => "Dashboard",
            Page::Droom => "Droom",
            Page::Signup => "Sign Up",
            Page::Login => "Log In",
            Page::UsernameSetup => "Choose Username",
        }
    }

    /// The path the page is served on.
    pub fn path(&self) -> (r: &'static str)
        ensures
            r@ == page_path(*self),
    {
        match self {
            Page::Index => "/index",
            Page::Home => "/",
            Page::About => "/about",
            Page::Installations => "/installations",
            Page::Features => "/features",
            Page::Contact => "/contact",
            Page::ApiReference => "/apireference",
            Page::Blog => "/blog",
            Page::Careers => "/careers",
            Page::Community => "/community",
            Page::Documentation => "/documentation",
            Page::GettingStarted => "/gettingstarted",
            Page::Pricing => "/pricing",
            Page::Releases => "/releases",
            Page::Tutorials => "/tutorials",
            Page::Support => "/support",
            Page::Dashboard => "/dashboard",
            Page::Droom => "/droom",
            Page::Signup => "/signup",
            Page::Login => "/login",
            Page::UsernameSetup => "/username-setup",
        }
    }
}

/// The outcome of rendering a page's template: the HTML in a
/// `200 OK` reply, or, where the template could not be rendered, a `500`.
pub fn render_outcome(rendered: Option<String>) -> (r: Result<Reply, AppError>)
    ensures
        match rendered {
            Some(html) => r matches Ok(reply) && reply@ == (ReplyView {
                status: STATUS_OK,
                location: None,
                cookies: Seq::empty(),
                body: BodyView::Html(html@),
            }),
            None => r matches Err(e) && e@ == failure_error(ExternalFailureView::TemplateRendering),
        },
{
    match rendered {
        Some(html) => Ok(page_reply(html)),
        None => Err(ExternalFailure::TemplateRendering.to_app_error()),
    }
}

/// The reply to a page whose template rendered to `html`: `200 OK`, the
/// HTML as the body, no redirect and no cookies.
pub open spec fn html_reply_view(html: Seq<char>) -> ReplyView {
    ReplyView { status: STATUS_OK, location: None, cookies: Seq::empty(), body: BodyView::Html(html) }
}

/// What rendering a page gives: the engine was handed `template` and a
/// context holding only `title` under the key `title`; where the engine
/// rendered HTML, that HTML is the reply's body, and only where it failed is
/// the reply the rendering error.
pub open spec fn page_rendered(
    template: Seq<char>,
    title: Seq<char>,
    rendering: Rendering,
    result: Result<Reply, AppError>,
) -> bool {
    &&& rendering.request() == (RenderRequest { template, context: title_context(title) })
    &&& match rendering.html() {
        Some(h) => result matches Ok(reply) && reply@ == html_reply_view(h),
        None => result matches Err(e) && e@ == failure_error(ExternalFailureView::TemplateRendering),
    }
}

/// Renders `template` with `title` under the key `title`: the HTML that the
/// engine rendered in a `200 OK` reply, or, where it could not render the
/// template, a `500`. Its second part is the rendering itself: what the
/// engine was handed and what it gave.
pub fn render_template(tera: &Tera, template: &str, title: &str) -> (r: (Result<Reply, AppError>, Rendering))
    ensures
        page_rendered(template@, title@, r.1, r.0),
{
    let context = page_context(title);
    let rendering = tera_render(tera, template, &context);
    let html = rendering.html_text();
    (render_outcome(html), rendering)
}

/// A page is served as the engine rendered it: the engine is handed the
/// page's template and a context holding only its title under `title`; HTML
/// it renders comes back unchanged as the body of a `200 OK` reply with no
/// redirect and no cookies, and the reply is the `500` rendering error only
/// where the engine failed.
pub proof fn pages_are_served_as_rendered(
    template: Seq<char>,
    title: Seq<char>,
    rendering: Rendering,
    result: Result<Reply, AppError>,
)
    requires
        page_rendered(template, title, rendering, result),
    ensures
        rendering.request().template == template,
        rendering.request().context.dom() == set!["title"@],
        rendering.request().context["title"@] == title,
        rendering.html() matches Some(h) ==> (result matches Ok(reply) && reply@.status == 200
            && reply@.body == BodyView::Html(h) && reply@.location is None && reply@.cookies.len() == 0),
        result is Err ==> rendering.html() is None,
        rendering.html() is None ==> (result matches Err(e) && e@.status == 500 && e@.message
            == "Template rendering failed"@),
{
    assert(title_context(title).dom() =~= set!["title"@]);
}

} // verus!
