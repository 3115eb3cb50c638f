use anathema_router::template::push_block;
use anathema_router::text::same_text;
use anathema_router::{Router, RouterBuilder, NAVIGATE};

fn block(name: &str) -> String {
    format!("\nif active_route == \"{name}\"\n    @{name} (navigate->navigate)\n            ")
}

fn declare(names: &[&str]) -> RouterBuilder {
    let mut builder = Router::builder();
    for name in names {
        builder = builder.add_route(name);
    }
    builder
}

#[test]
fn empty_route_list_gives_empty_template() {
    assert_eq!(Router::builder().generate_template(), "");
}

#[test]
fn single_route_template_is_exact() {
    let template = Router::builder().add_route("home").generate_template();
    assert_eq!(
        template,
        "\nif active_route == \"home\"\n    @home (navigate->navigate)\n            "
    );
}

#[test]
fn block_holds_the_conditional_verbatim() {
    let template = Router::builder().add_route("R").generate_template();
    assert!(template.contains("if active_route == \"R\"\n    @R (navigate->navigate)"));
    assert_eq!(template.chars().count(), 62 + 2);
}

#[test]
fn one_block_per_route_in_declaration_order() {
    let names = ["home", "settings", "about", "help"];
    let template = declare(&names).generate_template();
    let mut expected = String::new();
    let mut at = 0;
    for name in names {
        let literal = format!("if active_route == \"{name}\"");
        assert_eq!(template.matches(&literal).count(), 1);
        assert_eq!(template.matches(&format!("@{name} (")).count(), 1);
        let found = template.find(&literal).unwrap();
        assert!(found >= at);
        at = found;
        expected.push_str(&block(name));
    }
    assert_eq!(template, expected);
    assert_eq!(template.matches("if active_route == ").count(), names.len());
}

#[test]
fn block_positions_tile_the_template() {
    let names = ["a", "bcd", "", "ef"];
    let template = declare(&names).generate_template();
    let mut start = 0;
    for name in names {
        let len = 62 + 2 * name.len();
        assert_eq!(&template[start..start + len], block(name));
        assert_eq!(&template[start + 21..start + 21 + name.len()], name);
        assert_eq!(
            &template[start + 28 + name.len()..start + 28 + 2 * name.len()],
            name
        );
        start += len;
    }
    assert_eq!(start, template.len());
}

#[test]
fn generate_template_twice_is_identical() {
    let builder = declare(&["home", "settings"]);
    let first = builder.generate_template();
    let second = builder.generate_template();
    assert_eq!(first.as_bytes(), second.as_bytes());
}

#[test]
fn template_ignores_the_debug_path() {
    let plain = declare(&["home", "settings"]);
    let kept = declare(&["home", "settings"]).debug_path("router.aml");
    assert_eq!(plain.generate_template(), kept.generate_template());
}

#[test]
fn duplicate_routes_give_duplicate_blocks() {
    let template = declare(&["home", "home"]).generate_template();
    assert_eq!(template, format!("{}{}", block("home"), block("home")));
}

#[test]
fn names_are_not_escaped() {
    let template = Router::builder().add_route("a\"b").generate_template();
    assert_eq!(template, block("a\"b"));
}

#[test]
fn non_ascii_names_are_kept() {
    let template = declare(&["café", "日本"]).generate_template();
    assert_eq!(template, format!("{}{}", block("café"), block("日本")));
}

#[test]
fn push_block_appends_behind_existing_text() {
    let mut text = String::from("head");
    push_block(&mut text, "home");
    assert_eq!(text, format!("head{}", block("home")));
}

#[test]
fn blocks_wire_the_navigate_event() {
    assert_eq!(NAVIGATE, "navigate");
    let template = Router::builder().add_route("home").generate_template();
    assert!(template.contains(&format!("({NAVIGATE}->{NAVIGATE})")));
}

#[test]
fn same_text_compares_characters() {
    assert!(same_text("navigate", "navigate"));
    assert!(same_text("", ""));
    assert!(!same_text("navigate", "navigatf"));
    assert!(!same_text("navigate", "navigat"));
    assert!(!same_text("", "x"));
    assert!(same_text("日本", "日本"));
    assert!(!same_text("日本", "日木"));
}
