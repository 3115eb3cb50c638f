//! The router and its state: the active route, switched by `navigate`
//! events.

use vstd::prelude::*;
use crate::builder::RouterBuilder;
use crate::template::NAVIGATE;
use crate::text::{names_of, same_text};

verus! {

/// The router: it owns no state of its own, and turns `navigate` events into
/// changes of the active route.
pub struct Router;

/// What the host runtime observes of a router.
pub struct RouterState {
    /// The route whose child is shown. Any text is accepted, also one that
    /// names no declared route: then no child is shown.
    pub active_route: String,
    /// The declared routes, in declaration order.
    pub routes: Vec<String>,
}

/// A router's state as plain text.
pub struct RouterStateView {
    pub active_route: Seq<char>,
    pub routes: Seq<Seq<char>>,
}

impl View for RouterState {
    type V = RouterStateView;

    open spec fn view(&self) -> RouterStateView {
        RouterStateView { active_route: self.active_route@, routes: names_of(self.routes@) }
    }
}

/// The state after the event `ident` with the payload `value` has reached a
/// router in `state`: `navigate` makes the payload the active route, whatever
/// it names, and every other event changes nothing.
pub open spec fn after_event(state: RouterStateView, ident: Seq<char>, value: Seq<char>)
    -> RouterStateView {
    if ident == NAVIGATE@ {
        RouterStateView { active_route: value, routes: state.routes }
    } else {
        state
    }
}

/// A `navigate` event makes its payload the active route, whether or not
/// the payload names a declared route, and leaves the declared routes as
/// they were.
pub proof fn lemma_navigate_sets_active_route(state: RouterStateView, value: Seq<char>)
    ensures
        after_event(state, NAVIGATE@, value).active_route == value,
        after_event(state, NAVIGATE@, value).routes == state.routes,
{
}

/// An event other than `navigate` leaves the state as it was.
pub proof fn lemma_other_events_change_nothing(
    state: RouterStateView,
    ident: Seq<char>,
    value: Seq<char>,
)
    requires
        ident != NAVIGATE@,
    ensures
        after_event(state, ident, value) == state,
{
}

/// No event changes the declared routes.
pub proof fn lemma_events_keep_routes(state: RouterStateView, ident: Seq<char>, value: Seq<char>)
    ensures
        after_event(state, ident, value).routes == state.routes,
{
}

/// After two `navigate` events only the later payload counts.
pub proof fn lemma_last_navigate_wins(state: RouterStateView, first: Seq<char>, second: Seq<char>)
    ensures
        after_event(after_event(state, NAVIGATE@, first), NAVIGATE@, second) == after_event(
            state,
            NAVIGATE@,
            second,
        ),
{
}

impl RouterState {
    /// The state that a router starts in: `entrypoint` is active, whether or
    /// not it is one of `routes`.
    pub fn new(entrypoint: &str, routes: Vec<String>) -> (state: RouterState)
        ensures
            state.active_route@ == entrypoint@,
            state.routes == routes,
    {
        RouterState { active_route: entrypoint.to_owned(), routes }
    }
}

impl Router {
    /// A builder with no route declared and no debug file asked for.
    pub fn builder() -> (builder: RouterBuilder)
        ensures
            builder@.routes == Seq::<Seq<char>>::empty(),
            builder@.debug_path is None,
    {
        RouterBuilder::empty()
    }

    /// Reacts to the event `ident` with the payload `value`.
    pub fn receive(&mut self, ident: &str, value: &str, state: &mut RouterState)
        ensures
            final(state)@ == after_event(old(state)@, ident@, value@),
            final(state).routes == old(state).routes,
            ident@ != NAVIGATE@ ==> *final(state) == *old(state),
    {
        if !same_text(ident, NAVIGATE) {
            return;
        }
        state.active_route = value.to_owned();
    }
}

} // verus!
