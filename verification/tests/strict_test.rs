use jss::process_css;
use jss::render::render;
use jss::tree::CssError;
use jss::tree::PropertyValue;
use jss::tree::StyleBody;
use jss::tree::StyleTree;

fn typo_tree() -> StyleTree {
    let mut b = StyleBody::new();
    b.push("background-color-typo", PropertyValue::text("red"));
    b.push("border", PropertyValue::text("1px solid green"));
    let mut tree = StyleTree::new();
    tree.push(".layer", b);
    tree
}

#[test]
fn invalid_style_name_if_not_strict_should_work() {
    let tree = typo_tree();
    let css = process_css(None, &tree, false);
    let expected = r#".layer{background-color-typo:red;border:1px solid green;}"#;
    println!("{}", css);
    assert_eq!(expected, css);
}

#[test]
#[should_panic]
fn test_invalid_style_name() {
    let tree = typo_tree();
    let css = render(&tree, None, false, 0, true).unwrap();
    let expected =
        r#".layer{background-color:red;border:1px solid green;}.hide .layer{opacity:0;}"#;
    println!("{}", css);
    assert_eq!(expected, css);
}

#[test]
fn invalid_style_name_if_strict_is_an_error() {
    let tree = typo_tree();
    let r = render(&tree, None, false, 0, true);
    match r {
        Err(CssError::UnknownProperty { key, selector }) => {
            assert_eq!(key, "background-color-typo");
            assert_eq!(selector.as_deref(), Some(".layer"));
        }
        Ok(css) => panic!("strict rendering accepted an unknown property: {}", css),
    }
}

#[test]
fn strict_error_message_names_key_and_selector() {
    let tree = typo_tree();
    let e = render(&tree, None, false, 0, true).unwrap_err();
    assert_eq!(
        "invalid style name: `background-color-typo` in selector: `.layer`",
        e.message()
    );
    let bare = CssError::UnknownProperty {
        key: "no-such".to_string(),
        selector: None,
    };
    assert_eq!("invalid style name: `no-such` ", bare.message());
}

#[test]
fn strict_accepts_known_properties() {
    let mut b = StyleBody::new();
    b.push("background_color", PropertyValue::text("red"));
    b.push("border", PropertyValue::text("1px solid green"));
    let mut tree = StyleTree::new();
    tree.push(".layer", b);
    let r = render(&tree, None, false, 0, true);
    assert_eq!(
        r.unwrap(),
        ".layer{background-color:red;border:1px solid green;}"
    );
}
