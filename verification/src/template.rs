//! The render template: one conditional block per route, in declaration
//! order.
//!
//! For a route named `R` the conditional reads
//!
//! ```text
//! if active_route == "R"
//!     @R (navigate->navigate)
//! ```
//!
//! so the host runtime mounts the child component `R` exactly while the
//! router's active route is `R`, and passes `navigate` events between the
//! child and the router.

use vstd::prelude::*;
use vstd::string::*;

verus! {

/// The one event that a router reacts to, and that every block wires between
/// the mounted child and the router.
pub const NAVIGATE: &'static str = "navigate";

/// The conditional of the route `name`: the comparison of the active route
/// with the literal `name`, and below it the child component `name` with its
/// `navigate` event bound to the router's.
pub open spec fn conditional(name: Seq<char>) -> Seq<char> {
    "if active_route == \""@ + name + "\"\n    @"@ + name + " ("@ + NAVIGATE@ + "->"@ + NAVIGATE@
        + ")"@
}

/// The block of the route `name` as it stands in a template: a line break,
/// the conditional, and a line break with the indentation that follows it.
pub open spec fn route_block(name: Seq<char>) -> Seq<char> {
    "\n"@ + conditional(name) + "\n            "@
}

/// The blocks of `routes`, one per route and in the same order.
pub open spec fn blocks_of(routes: Seq<Seq<char>>) -> Seq<Seq<char>> {
    routes.map_values(|name: Seq<char>| route_block(name))
}

/// The template of `routes`: their blocks, one after the other.
pub open spec fn template_text(routes: Seq<Seq<char>>) -> Seq<char> {
    blocks_of(routes).flatten()
}

/// Where the block of route `i` begins in the template of `routes`: behind
/// the blocks of the routes before it.
pub open spec fn block_start(routes: Seq<Seq<char>>, i: int) -> int {
    template_text(routes.take(i)).len() as int
}

/// The number of characters that a block holds besides the two copies of the
/// route's name.
pub open spec fn block_frame_len() -> nat {
    62
}

/// Where the compared literal begins in a block.
pub open spec fn literal_start() -> int {
    21
}

/// Where the mounted component's name begins in the block of a route whose
/// name has `name_len` characters.
pub open spec fn component_start(name_len: nat) -> int {
    28 + name_len as int
}

/// Appends the block of `route` to `template`.
pub fn push_block(template: &mut String, route: &str)
    ensures
        final(template)@ == old(template)@ + route_block(route@),
{
    template.append("\n");
    template.append("if active_route == \"");
    template.append(route);
    template.append("\"\n    @");
    template.append(route);
    template.append(" (");
    template.append(NAVIGATE);
    template.append("->");
    template.append(NAVIGATE);
    template.append(")");
    template.append("\n            ");
    assert(template@ =~= old(template)@ + route_block(route@));
}

/// With no route there is no text.
pub proof fn lemma_template_of_none()
    ensures
        template_text(Seq::<Seq<char>>::empty()) == Seq::<char>::empty(),
{
    assert(blocks_of(Seq::<Seq<char>>::empty()) =~= Seq::<Seq<char>>::empty());
}

/// Declaring one more route adds its block at the end of the template and
/// leaves the text before it as it was.
pub proof fn lemma_template_push(routes: Seq<Seq<char>>, name: Seq<char>)
    ensures
        template_text(routes.push(name)) == template_text(routes) + route_block(name),
{
    assert(blocks_of(routes.push(name)) =~= blocks_of(routes).push(route_block(name)));
    blocks_of(routes).lemma_flatten_push(route_block(name));
}

/// The template of `routes` holds exactly one block per route, in
/// declaration order: the block of route `i` begins where that of the route
/// before it ends, the first begins the text and the last ends it.
pub proof fn lemma_template_blocks(routes: Seq<Seq<char>>, i: int)
    requires
        0 <= i < routes.len(),
    ensures
        blocks_of(routes).len() == routes.len(),
        blocks_of(routes)[i] == route_block(routes[i]),
        block_start(routes, 0) == 0,
        block_start(routes, routes.len() as int) == template_text(routes).len(),
        block_start(routes, i + 1) == block_start(routes, i) + route_block(routes[i]).len(),
        block_start(routes, i + 1) <= template_text(routes).len(),
        template_text(routes).subrange(block_start(routes, i), block_start(routes, i + 1))
            == route_block(routes[i]),
{
    let head = routes.take(i);
    let tail = routes.skip(i + 1);
    let block = route_block(routes[i]);
    assert(routes.take(0) =~= Seq::<Seq<char>>::empty());
    lemma_template_of_none();
    assert(routes.take(routes.len() as int) =~= routes);
    assert(routes.take(i + 1) =~= head.push(routes[i]));
    lemma_template_push(head, routes[i]);
    assert(routes =~= routes.take(i + 1) + tail);
    lemma_template_concat(routes.take(i + 1), tail);
    assert(template_text(routes).subrange(block_start(routes, i), block_start(routes, i + 1))
        =~= block);
}

/// The template of two lists of routes, one behind the other, is the
/// template of the first followed by that of the second.
pub proof fn lemma_template_concat(first: Seq<Seq<char>>, second: Seq<Seq<char>>)
    ensures
        template_text(first + second) == template_text(first) + template_text(second),
    decreases second.len(),
{
    if second.len() == 0 {
        assert(first + second =~= first);
        assert(second =~= Seq::<Seq<char>>::empty());
        lemma_template_of_none();
        assert(template_text(first) + Seq::<char>::empty() =~= template_text(first));
    } else {
        let init = second.drop_last();
        let last = second.last();
        assert(second =~= init.push(last));
        assert(first + second =~= (first + init).push(last));
        lemma_template_concat(first, init);
        lemma_template_push(first + init, last);
        lemma_template_push(init, last);
        assert(template_text(first + second) =~= template_text(first) + template_text(second));
    }
}

/// Routes with distinct names have distinct blocks: no name is tested, and
/// no child is mounted, by two blocks of the template.
pub proof fn lemma_distinct_routes_distinct_blocks(routes: Seq<Seq<char>>)
    requires
        routes.no_duplicates(),
    ensures
        blocks_of(routes).no_duplicates(),
{
    assert forall|i: int, j: int|
        0 <= i < routes.len() && 0 <= j < routes.len() && i != j implies blocks_of(routes)[i]
        != blocks_of(routes)[j] by {
        if route_block(routes[i]) == route_block(routes[j]) {
            lemma_block_decides_name(routes[i], routes[j]);
        }
    }
}

/// The template is empty exactly when no route is declared.
pub proof fn lemma_template_empty_iff_no_route(routes: Seq<Seq<char>>)
    ensures
        template_text(routes).len() == 0 <==> routes.len() == 0,
{
    if routes.len() == 0 {
        assert(routes =~= Seq::<Seq<char>>::empty());
        lemma_template_of_none();
    } else {
        lemma_template_blocks(routes, 0);
        lemma_block_len(routes[0]);
    }
}

/// A block holds its frame and the route's name twice.
pub proof fn lemma_block_len(name: Seq<char>)
    ensures
        route_block(name).len() == block_frame_len() + 2 * name.len(),
{
    reveal_literals();
}

/// In the block of a route, both the literal that the active route is
/// compared with and the name of the mounted component are the route's name,
/// character for character.
pub proof fn lemma_block_names_route(name: Seq<char>)
    ensures
        route_block(name).subrange(literal_start(), literal_start() + name.len()) == name,
        route_block(name).subrange(
            component_start(name.len()),
            component_start(name.len()) + name.len(),
        ) == name,
{
    reveal_literals();
    let block = route_block(name);
    let n = name.len() as int;
    assert(block.len() == 62 + 2 * n);
    assert forall|k: int| 0 <= k < n implies #[trigger] block[21 + k] == name[k] by {}
    assert forall|k: int| 0 <= k < n implies #[trigger] block[28 + n + k] == name[k] by {}
    assert(block.subrange(21, 21 + n) =~= name);
    assert(block.subrange(28 + n, 28 + n + n) =~= name);
}

/// Routes with different names have different blocks.
pub proof fn lemma_block_decides_name(a: Seq<char>, b: Seq<char>)
    requires
        route_block(a) == route_block(b),
    ensures
        a == b,
{
    lemma_block_len(a);
    lemma_block_len(b);
    lemma_block_names_route(a);
    lemma_block_names_route(b);
}

proof fn reveal_literals()
    ensures
        "\n"@.len() == 1,
        "if active_route == \""@.len() == 20,
        "\"\n    @"@.len() == 7,
        " ("@.len() == 2,
        NAVIGATE@.len() == 8,
        "->"@.len() == 2,
        ")"@.len() == 1,
        "\n            "@.len() == 13,
{
    reveal_strlit("\n");
    reveal_strlit("if active_route == \"");
    reveal_strlit("\"\n    @");
    reveal_strlit(" (");
    reveal_strlit("navigate");
    reveal_strlit("->");
    reveal_strlit(")");
    reveal_strlit("\n            ");
}

} // verus!
