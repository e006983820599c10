use jss::process_css_properties;
use jss::style::PropertyTable;
use jss::tree::PropertyValue;
use jss::tree::StyleBody;

#[test]
fn simple_style() {
    let mut b = StyleBody::new();
    b.push("background_color", PropertyValue::text("red"));
    b.push("border", PropertyValue::text("1px solid green"));
    let style = process_css_properties(0, None, None, &b, false);
    let expected = r#"background-color:red;border:1px solid green;"#;
    assert_eq!(expected, style);
}

#[test]
fn simple_style_pretty() {
    let mut b = StyleBody::new();
    b.push("background_color", PropertyValue::text("red"));
    let style = process_css_properties(0, None, None, &b, true);
    assert_eq!("    background-color: red;\n", style);
}

#[test]
fn table_round_trip() {
    let table = PropertyTable::new();
    let n = table.len();
    assert!(n > 0);
    let mut i = 0;
    while i < n {
        let (ident, canonical) = table.entry(i);
        assert_eq!(table.resolve(ident), Some(canonical));
        assert_eq!(table.resolve(canonical), Some(canonical));
        i += 1;
    }
}

#[test]
fn table_lookup_direction() {
    let table = PropertyTable::new();
    assert_eq!(table.from_ident("background_color"), Some("background-color"));
    assert_eq!(table.from_ident("background-color"), None);
    assert_eq!(table.match_name("background-color"), Some("background-color"));
    assert_eq!(table.match_name("background_color"), None);
    assert_eq!(table.resolve("no-such-property"), None);
}
