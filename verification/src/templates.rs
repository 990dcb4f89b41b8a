//! The template engine: the context a template is rendered with, and a
//! rendering, which keeps what the engine was handed and what it gave.

use vstd::prelude::*;
use tera::{Context, Tera};

verus! {

/// The template engine, with the site's templates loaded.
#[verifier::external_type_specification]
#[verifier::external_body]
pub struct ExTera(Tera);

/// The values a template is rendered with, by key.
#[verifier::external_type_specification]
#[verifier::external_body]
pub struct ExContext(Context);

/// The entries of a context, each a text, by key.
pub uninterp spec fn context_texts(c: Context) -> Map<Seq<char>, Seq<char>>;

/// A context with no entries.
pub open spec fn no_texts() -> Map<Seq<char>, Seq<char>> {
    Map::empty()
}

/// `Context::new`: an empty context.
#[verifier::external_body]
pub(crate) fn new_context() -> (c: Context)
    ensures
        context_texts(c) == no_texts(),
{
    Context::new()
}

/// `Context::insert` of a text: the context's map now holds `value` under
/// `key`, in place of what it held there (context.rs: `data.insert` of the
/// text as a JSON string, which always serializes).
#[verifier::external_body]
pub(crate) fn insert_text(c: &mut Context, key: &str, value: &str)
    ensures
        context_texts(*final(c)) == context_texts(*old(c)).insert(key@, value@),
{
    c.insert(key, value);
}

/// What is handed to the template engine: the template's name and the
/// context's texts by key.
pub struct RenderRequest {
    pub template: Seq<char>,
    pub context: Map<Seq<char>, Seq<char>>,
}

/// A rendering of a template: the template's name and the context that the
/// engine was handed, and the HTML it gave, or none where it failed. Only
/// `tera_render` makes one, so its HTML is always what the engine gave.
#[derive(Debug)]
pub struct Rendering {
    template: String,
    context: Context,
    html: Option<String>,
}

impl Rendering {
    /// What the engine was handed.
    pub closed spec fn request(self) -> RenderRequest {
        RenderRequest { template: self.template@, context: context_texts(self.context) }
    }

    /// The HTML the engine gave, or none where it failed.
    pub closed spec fn html(self) -> Option<Seq<char>> {
        match self.html {
            Some(h) => Some(h@),
            None => None,
        }
    }

    /// A copy of the HTML the engine gave.
    pub fn html_text(&self) -> (r: Option<String>)
        ensures
            match r {
                Some(h) => self.html() == Some(h@),
                None => self.html() is None,
            },
    {
        match &self.html {
            Some(h) => Some(h.clone()),
            None => None,
        }
    }
}

/// `Tera::render` of `template` with `context`, kept with what it was
/// handed. What it renders depends on the templates loaded into `tera` from
/// disk (and may use the clock or chance), so it is not named and nothing is
/// claimed of it; claimed is only that the rendering records the template's
/// name and the context it was given.
#[verifier::external_body]
pub(crate) fn tera_render(tera: &Tera, template: &str, context: &Context) -> (r: Rendering)
    ensures
        r.request() == (RenderRequest { template: template@, context: context_texts(*context) }),
{
    Rendering { template: template.to_owned(), context: context.clone(), html: tera.render(template, context).ok() }
}

} // verus!
