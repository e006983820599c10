use jss::process_css;
use jss::tree::PropertyValue;
use jss::tree::StyleBody;
use jss::tree::StyleTree;

#[test]
fn test_svg_properties() {
    let mut b = StyleBody::new();
    b.push("stroke_dasharray", PropertyValue::text("4 1"));
    b.push(
        "gradientTransform",
        PropertyValue::text("skewX(20) translate(-35, 0)"),
    );
    b.push("gradient_units", PropertyValue::text("userSpaceOnUse"));
    let mut tree = StyleTree::new();
    tree.push("rect", b);

    let css = process_css(None, &tree, false);
    let expected =
        "rect{stroke-dasharray:4 1;gradientTransform:skewX(20) translate(-35, 0);gradientUnits:userSpaceOnUse;}";
    println!("{}", css);
    assert_eq!(expected, css);
}
