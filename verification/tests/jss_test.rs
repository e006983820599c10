use jss::process_css;
use jss::selector_namespaced;
use jss::tree::PropertyValue;
use jss::tree::StyleBody;
use jss::tree::StyleTree;

fn body(pairs: Vec<(&str, PropertyValue)>) -> StyleBody {
    let mut b = StyleBody::new();
    for (k, v) in pairs {
        b.push(k, v);
    }
    b
}

#[test]
fn test_selector_ns() {
    assert_eq!(".frame", selector_namespaced("frame", "."));
    assert_eq!(
        ".frame__hide .frame__corner",
        selector_namespaced("frame", ".hide .corner")
    );
}

#[test]
fn test_jss() {
    let mut tree = StyleTree::new();
    tree.push(
        ".layer",
        body(vec![
            ("background-color", PropertyValue::text("red")),
            ("border", PropertyValue::text("1px solid green")),
        ]),
    );
    tree.push(".hide .layer", body(vec![("opacity", PropertyValue::integer(0))]));

    let css = process_css(None, &tree, false);
    let expected =
        r#".layer{background-color:red;border:1px solid green;}.hide .layer{opacity:0;}"#;
    println!("{}", css);
    assert_eq!(expected, css);
}

#[test]
fn test_jss_using_ident() {
    let mut tree = StyleTree::new();
    tree.push(
        ".layer",
        body(vec![
            ("background_color", PropertyValue::text("red")),
            ("border", PropertyValue::text("1px solid green")),
        ]),
    );
    tree.push(".hide .layer", body(vec![("opacity", PropertyValue::integer(0))]));

    let css = process_css(None, &tree, false);
    let expected =
        r#".layer{background-color:red;border:1px solid green;}.hide .layer{opacity:0;}"#;
    println!("{}", css);
    assert_eq!(expected, css);
}

#[test]
fn test_jss_ns() {
    let mut tree = StyleTree::new();
    tree.push(".", body(vec![("display", PropertyValue::text("block"))]));
    tree.push(
        ".layer",
        body(vec![
            ("background_color", PropertyValue::text("red")),
            ("border", PropertyValue::text("1px solid green")),
        ]),
    );
    tree.push(".hide .layer", body(vec![("opacity", PropertyValue::integer(0))]));

    let css = process_css(Some("frame"), &tree, false);
    let expected = r#".frame{display:block;}.frame__layer{background-color:red;border:1px solid green;}.frame__hide .frame__layer{opacity:0;}"#;
    println!("{}", css);
    assert_eq!(expected, css);
}

#[test]
fn test_jss_pretty() {
    let mut tree = StyleTree::new();
    tree.push(
        ".layer",
        body(vec![
            ("background-color", PropertyValue::text("red")),
            ("border", PropertyValue::text("1px solid green")),
        ]),
    );
    tree.push(".hide .layer", body(vec![("opacity", PropertyValue::integer(0))]));

    let css = process_css(None, &tree, true);
    let expected = "\
\n.layer {\
\n    background-color: red;\
\n    border: 1px solid green;\
\n}\
\n.hide .layer {\
\n    opacity: 0;\
\n}\
\n";
    println!("{}", css);
    assert_eq!(expected, css);
}

#[test]
fn test_jss_ns_pretty() {
    let mut tree = StyleTree::new();
    tree.push(".", body(vec![("display", PropertyValue::text("block"))]));
    tree.push(
        ".layer",
        body(vec![
            ("background-color", PropertyValue::text("red")),
            ("border", PropertyValue::text("1px solid green")),
        ]),
    );
    tree.push(".hide .layer", body(vec![("opacity", PropertyValue::integer(0))]));

    let css = process_css(Some("frame"), &tree, true);
    let expected = "\
\n.frame {\
\n    display: block;\
\n}\
\n.frame__layer {\
\n    background-color: red;\
\n    border: 1px solid green;\
\n}\
\n.frame__hide .frame__layer {\
\n    opacity: 0;\
\n}\
\n";
    println!("{}", css);
    assert_eq!(expected, css);
}

#[test]
fn test_jss_ns_with_media_query() {
    let mut tree = StyleTree::new();
    tree.push(".", body(vec![("display", PropertyValue::text("block"))]));
    tree.push(
        ".layer",
        body(vec![
            ("background-color", PropertyValue::text("red")),
            ("border", PropertyValue::text("1px solid green")),
        ]),
    );
    let inner = body(vec![("width", PropertyValue::text("100%"))]);
    let mut media = StyleBody::new();
    media.push(".layer", PropertyValue::nested(inner));
    tree.push("@media screen and (max-width: 800px)", media);
    tree.push(".hide .layer", body(vec![("opacity", PropertyValue::integer(0))]));

    let css = process_css(Some("frame"), &tree, false);
    let expected = r#".frame{display:block;}.frame__layer{background-color:red;border:1px solid green;}@media screen and (max-width: 800px){.frame__layer{width:100%;}}.frame__hide .frame__layer{opacity:0;}"#;
    println!("{}", css);
    assert_eq!(expected, css);
}
