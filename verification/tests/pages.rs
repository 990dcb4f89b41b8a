use jrep::http::Body;
use jrep::pages::{render_outcome, Page};

#[test]
fn page_templates_titles_and_paths() {
    let expected = [
        (Page::Home, "home.html", "Home", "/"),
        (Page::Index, "index.html", "JRep", "/index"),
        (Page::About, "about.html", "About", "/about"),
        (Page::Installations, "installation.html", "Installations", "/installations"),
        (Page::Features, "features.html", "Features", "/features"),
        (Page::Contact, "contact.html", "Contact", "/contact"),
        (Page::ApiReference, "apireference.html", "API Reference", "/apireference"),
        (Page::Blog, "blog.html", "Blog", "/blog"),
        (Page::Careers, "careers.html", "Careers", "/careers"),
        (Page::Community, "community.html", "Community", "/community"),
        (Page::Documentation, "documentation.html", "Documentation", "/documentation"),
        (Page::GettingStarted, "gettingstarted.html", "Getting Started", "/gettingstarted"),
        (Page::Pricing, "pricing.html", "Pricing", "/pricing"),
        (Page::Releases, "releases.html", "Releases", "/releases"),
        (Page::Support, "support.html", "Support", "/support"),
        (Page::Tutorials, "tutorials.html", "Tutorials", "/tutorials"),
        (Page::Dashboard, "dashboard.html", "Dashboard", "/dashboard"),
        (Page::Droom, "droom.html", "Droom", "/droom"),
        (Page::Signup, "signup.html", "Sign Up", "/signup"),
        (Page::Login, "login.html", "Log In", "/login"),
        (Page::UsernameSetup, "username_setup.html", "Choose Username", "/username-setup"),
    ];
    for (p, t, title, path) in expected {
        assert_eq!(p.template(), t);
        assert_eq!(p.title(), title);
        assert_eq!(p.path(), path);
    }
    let all = Page::all();
    assert_eq!(all.len(), 21);
    let paths: Vec<&str> = all.iter().map(|p| p.path()).collect();
    let mut sorted = paths.clone();
    sorted.sort();
    sorted.dedup();
    assert_eq!(sorted.len(), 21);
}

#[test]
fn rendering_outcomes() {
    let ok = render_outcome(Some("<h1>Home</h1>".into())).unwrap();
    assert_eq!(ok.status, 200);
    assert!(matches!(ok.body, Body::Html(ref h) if h == "<h1>Home</h1>"));
    let err = render_outcome(None).unwrap_err();
    assert_eq!(err.status, 500);
    assert_eq!(err.message, "Template rendering failed");
}

#[test]
fn pages_are_found_by_path() {
    assert!(matches!(Page::for_path("/"), Some(Page::Home)));
    assert!(matches!(Page::for_path("/username-setup"), Some(Page::UsernameSetup)));
    assert!(matches!(Page::for_path("/apireference"), Some(Page::ApiReference)));
    assert!(Page::for_path("/nowhere").is_none());
    assert!(Page::for_path("").is_none());
}

#[test]
fn a_template_is_rendered_with_its_title() {
    let mut tera = tera::Tera::default();
    tera.add_raw_template("t.html", "<h1>{{ title }}</h1>").unwrap();
    let reply = jrep::pages::render_template(&tera, "t.html", "Sign Up").0.unwrap();
    assert_eq!(reply.status, 200);
    assert!(reply.cookies.is_empty());
    assert!(matches!(reply.body, jrep::http::Body::Html(ref h) if h == "<h1>Sign Up</h1>"));
    let e = jrep::pages::render_template(&tera, "missing.html", "X").0.unwrap_err();
    assert_eq!((e.status, e.message.as_str()), (500, "Template rendering failed"));
}

#[test]
fn the_title_is_handed_under_its_key() {
    let mut tera = tera::Tera::default();
    tera.add_raw_template("t.html", "[{{ title }}]").unwrap();
    tera.add_raw_template("u.html", "<{{ title }}>").unwrap();
    let reply = jrep::pages::render_template(&tera, "u.html", "t.html").0.unwrap();
    assert!(matches!(reply.body, jrep::http::Body::Html(ref h) if h == "<t.html>"));
}
