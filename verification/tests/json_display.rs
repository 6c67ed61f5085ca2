use emstudio::json_display::{format_json_value, JsonShown};

fn num(t: &str) -> JsonShown {
    JsonShown::Number(t.to_string())
}

#[test]
fn scalars_show_as_their_text() {
    assert_eq!(format_json_value(&num("2.5")), "2.5");
    assert_eq!(format_json_value(&JsonShown::Text("w".to_string())), "w");
    assert_eq!(format_json_value(&JsonShown::Other("true".to_string())), "true");
    assert_eq!(format_json_value(&JsonShown::Other("null".to_string())), "null");
}

#[test]
fn arrays_show_their_items_in_brackets() {
    assert_eq!(format_json_value(&JsonShown::Array(vec![])), "[]");
    assert_eq!(format_json_value(&JsonShown::Array(vec![num("0"), num("1.5"), num("-2")])), "[0, 1.5, -2]");
    let nested = JsonShown::Array(vec![
        num("1"),
        JsonShown::Array(vec![num("2"), JsonShown::Text("a".to_string())]),
        JsonShown::Other("{\"k\":1}".to_string()),
    ]);
    assert_eq!(format_json_value(&nested), "[1, [2, a], {\"k\":1}]");
}
