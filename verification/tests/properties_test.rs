use jss::class_namespaced;
use jss::fns::rgb;
use jss::make_indent;
use jss::process_css;
use jss::selector_namespaced;
use jss::tree::PropertyValue;
use jss::tree::StyleBody;
use jss::tree::StyleTree;

#[test]
fn non_class_selector_unchanged() {
    assert_eq!("button", selector_namespaced("frame", "button"));
    assert_eq!("button", selector_namespaced("another_ns", "button"));
    assert_eq!("rect", selector_namespaced("x", "rect"));
}

#[test]
fn namespace_root() {
    assert_eq!(".frame", selector_namespaced("frame", "."));
    assert_eq!(".other", selector_namespaced("other", " . "));
}

#[test]
fn compound_class_rewriting() {
    assert_eq!(
        ".frame__hide .frame__corner",
        selector_namespaced("frame", ".hide .corner")
    );
    assert_eq!(
        ".frame__expand_corners.frame__hovered button .frame__highlight",
        selector_namespaced("frame", ".expand_corners.hovered button .highlight")
    );
    assert_eq!(".frame__hide button", selector_namespaced("frame", ".hide button"));
    assert_eq!(".frame__text-anim", selector_namespaced("frame", ".text-anim"));
}

#[test]
fn selector_list_and_descendant() {
    assert_eq!(
        ".frame__expand_corners,.frame__hovered",
        selector_namespaced("frame", ".expand_corners,.hovered")
    );
    assert_eq!(
        ".frame__expand_corners,.frame__hovered button .frame__highlight",
        selector_namespaced("frame", ".expand_corners,.hovered button .highlight")
    );
}

#[test]
fn class_namespaced_examples() {
    assert_eq!("frame__text-anim", class_namespaced("frame", "text-anim"));
    assert_eq!("frame__a frame__b", class_namespaced("frame", "a b"));
    assert_eq!("frame", class_namespaced("frame", ""));
    assert_eq!("frame", class_namespaced("frame", "   "));
}

#[test]
fn render_idempotent() {
    let mut b = StyleBody::new();
    b.push("background_color", PropertyValue::text("red"));
    b.push("opacity", PropertyValue::integer(0));
    let mut tree = StyleTree::new();
    tree.push(".layer", b);

    let first = process_css(Some("frame"), &tree, true);
    let second = process_css(Some("frame"), &tree, true);
    assert_eq!(first, second);

    let compact_first = process_css(Some("frame"), &tree, false);
    let compact_second = process_css(Some("frame"), &tree, false);
    assert_eq!(compact_first, compact_second);
}

#[test]
fn empty_tree_renders_nothing() {
    let tree = StyleTree::new();
    assert_eq!("", process_css(None, &tree, false));
    assert_eq!("\n", process_css(None, &tree, true));
}

#[test]
fn empty_body_renders_empty_block() {
    let mut tree = StyleTree::new();
    tree.push(".layer", StyleBody::new());
    assert_eq!(".layer{}", process_css(None, &tree, false));
    assert_eq!("\n.layer {\n}\n", process_css(None, &tree, true));
}

#[test]
fn duplicate_selectors_are_not_merged() {
    let mut b1 = StyleBody::new();
    b1.push("color", PropertyValue::text("red"));
    let mut b2 = StyleBody::new();
    b2.push("color", PropertyValue::text("blue"));
    let mut tree = StyleTree::new();
    tree.push(".layer", b1);
    tree.push(".layer", b2);
    assert_eq!(
        ".layer{color:red;}.layer{color:blue;}",
        process_css(None, &tree, false)
    );
}

#[test]
fn leaf_value_stringification() {
    let mut b = StyleBody::new();
    b.push("display", PropertyValue::bool_value(true));
    b.push("opacity", PropertyValue::bool_value(false));
    b.push("z_index", PropertyValue::integer(-42));
    b.push("width", PropertyValue::integer(i64::MIN));
    b.push("height", PropertyValue::integer(i64::MAX));
    let mut tree = StyleTree::new();
    tree.push("p", b);
    assert_eq!(
        "p{display:true;opacity:false;z-index:-42;width:-9223372036854775808;height:9223372036854775807;}",
        process_css(None, &tree, false)
    );
}

#[test]
fn nested_body_without_namespace() {
    let mut inner = StyleBody::new();
    inner.push("width", PropertyValue::text("100%"));
    let mut media = StyleBody::new();
    media.push(".layer", PropertyValue::nested(inner));
    let mut tree = StyleTree::new();
    tree.push("@media screen and (max-width: 900px)", media);
    assert_eq!(
        "@media screen and (max-width: 900px){.layer{width:100%;}}",
        process_css(None, &tree, false)
    );
}

#[test]
fn nested_body_pretty() {
    let mut inner = StyleBody::new();
    inner.push("width", PropertyValue::text("100%"));
    let mut media = StyleBody::new();
    media.push(".layer", PropertyValue::nested(inner));
    let mut tree = StyleTree::new();
    tree.push("@media screen and (max-width: 900px)", media);
    let expected = "\
\n@media screen and (max-width: 900px) {\
\n    .layer {\
\n        width: 100%;\
\n    }\
\n}\
\n";
    assert_eq!(expected, process_css(None, &tree, true));
}

#[test]
fn rgb_formats_its_arguments() {
    assert_eq!("rgb(255, 0, 100)", rgb("255", "0", "100"));
    assert_eq!("rgb(10%, 20%, 30%)", rgb("10%", "20%", "30%"));
}

#[test]
fn make_indent_is_four_spaces_per_level() {
    assert_eq!("", make_indent(3, false));
    assert_eq!("", make_indent(0, true));
    assert_eq!("        ", make_indent(2, true));
}

#[test]
fn double_spaces_are_preserved() {
    assert_eq!(
        ".frame__hide  .frame__corner",
        selector_namespaced("frame", ".hide  .corner")
    );
}
