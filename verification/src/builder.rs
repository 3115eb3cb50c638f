//! Declaring routes, and what is handed to the host runtime once they are
//! declared.

use vstd::prelude::*;
use crate::router::{RouterState, RouterStateView};
use crate::template::{lemma_template_of_none, lemma_template_push, push_block, template_text};
use crate::text::names_of;

verus! {

/// The name under which a router is registered with the host runtime.
pub const ROUTER_COMPONENT: &'static str = "router";

/// Collects the routes of a router, in the order in which they are declared.
pub struct RouterBuilder {
    routes: Vec<String>,
    // Only for debugging: the runtime takes the template as text just as well.
    path: Option<String>,
}

/// Where the host runtime gets a router's template from.
pub enum TemplateSource {
    /// The template is handed over as text.
    Text(String),
    /// The template `text` is written to the file at `path` first, and the
    /// runtime is given the path. The file is never read back here.
    File { path: String, text: String },
}

/// What is registered with the host runtime for a router.
pub struct Registration {
    /// The name of the component.
    pub component: String,
    /// The template to mount.
    pub source: TemplateSource,
    /// The state that the router starts in.
    pub state: RouterState,
}

/// A template source as plain text.
pub enum TemplateSourceView {
    Text(Seq<char>),
    File { path: Seq<char>, text: Seq<char> },
}

impl View for TemplateSource {
    type V = TemplateSourceView;

    open spec fn view(&self) -> TemplateSourceView {
        match self {
            TemplateSource::Text(text) => TemplateSourceView::Text(text@),
            TemplateSource::File { path, text } => TemplateSourceView::File {
                path: path@,
                text: text@,
            },
        }
    }
}

/// The source of the template `text` for a router that was or was not asked
/// to keep a debug file.
pub open spec fn source_for(debug_path: Option<Seq<char>>, text: Seq<char>) -> TemplateSourceView {
    match debug_path {
        Some(path) => TemplateSourceView::File { path, text },
        None => TemplateSourceView::Text(text),
    }
}

/// A builder as plain text.
pub struct RouterBuilderView {
    pub routes: Seq<Seq<char>>,
    pub debug_path: Option<Seq<char>>,
}

impl View for RouterBuilder {
    type V = RouterBuilderView;

    closed spec fn view(&self) -> RouterBuilderView {
        RouterBuilderView {
            routes: names_of(self.routes@),
            debug_path: match self.path {
                Some(path) => Some(path@),
                None => None,
            },
        }
    }
}

/// The template of a builder depends on its declared routes alone: two
/// builders with the same routes, and so one builder asked twice, give the
/// same text, character for character.
pub proof fn lemma_template_is_function_of_routes(a: RouterBuilder, b: RouterBuilder)
    requires
        a@.routes == b@.routes,
    ensures
        a.template() == b.template(),
{
}

impl RouterBuilder {
    /// The template that `generate_template` returns for this builder.
    pub open spec fn template(&self) -> Seq<char> {
        template_text(self@.routes)
    }

    pub(crate) fn empty() -> (builder: RouterBuilder)
        ensures
            builder@.routes == Seq::<Seq<char>>::empty(),
            builder@.debug_path is None,
    {
        let builder = RouterBuilder { routes: Vec::new(), path: None };
        assert(builder@.routes =~= Seq::<Seq<char>>::empty());
        builder
    }

    /// Declares the route `route` behind those declared so far. Nothing is
    /// asked of the name: not that it is new, nor that it is free of
    /// characters that have a meaning in a template.
    pub fn add_route(self, route: &str) -> (builder: RouterBuilder)
        ensures
            builder@.routes == self@.routes.push(route@),
            builder@.debug_path == self@.debug_path,
    {
        let mut routes = self.routes;
        routes.push(route.to_owned());
        let builder = RouterBuilder { routes, path: self.path };
        assert(builder@.routes =~= self@.routes.push(route@));
        builder
    }

    /// Asks for the template to be kept in the file at `path`, in place of
    /// one asked for before.
    pub fn debug_path(self, path: &str) -> (builder: RouterBuilder)
        ensures
            builder@.routes == self@.routes,
            builder@.debug_path == Some(path@),
    {
        RouterBuilder { routes: self.routes, path: Some(path.to_owned()) }
    }

    /// The template of the routes declared so far.
    pub fn generate_template(&self) -> (template: String)
        ensures
            template@ == self.template(),
    {
        let mut template = String::new();
        let mut i: usize = 0;
        proof {
            assert(names_of(self.routes@).take(0) =~= Seq::<Seq<char>>::empty());
            lemma_template_of_none();
        }
        while i < self.routes.len()
            invariant
                i <= self.routes.len(),
                template@ == template_text(names_of(self.routes@).take(i as int)),
            decreases self.routes.len() - i,
        {
            push_block(&mut template, self.routes[i].as_str());
            proof {
                let names = names_of(self.routes@);
                assert(names.take(i + 1) =~= names.take(i as int).push(names[i as int]));
                lemma_template_push(names.take(i as int), names[i as int]);
            }
            i += 1;
        }
        assert(names_of(self.routes@).take(i as int) =~= names_of(self.routes@));
        template
    }

    /// Ends the declaration: what to register with the host runtime, for a
    /// router that starts at `entrypoint`. The entry point need not be a
    /// declared route.
    pub fn finish(self, entrypoint: &str) -> (plan: Registration)
        ensures
            plan.component@ == ROUTER_COMPONENT@,
            plan.source@ == source_for(self@.debug_path, self.template()),
            plan.state@ == (RouterStateView { active_route: entrypoint@, routes: self@.routes }),
    {
        let text = self.generate_template();
        let state = RouterState::new(entrypoint, self.routes);
        let source = match self.path {
            Some(path) => TemplateSource::File { path, text },
            None => TemplateSource::Text(text),
        };
        Registration { component: ROUTER_COMPONENT.to_owned(), source, state }
    }
}

} // verus!
