use cats_api::json::cat_to_json;
use cats_api::json::cats_to_json;
use cats_api::json::dec_of_i32;
use cats_api::json::escape_json_string;
use cats_api::models::Cat;

fn cat(id: i32, name: &str) -> Cat {
    Cat { id, name: String::from(name) }
}

#[test]
fn decimal_of_zero() {
    assert_eq!(dec_of_i32(0), "0");
}

#[test]
fn decimal_of_positive() {
    assert_eq!(dec_of_i32(42), "42");
    assert_eq!(dec_of_i32(100), "100");
    assert_eq!(dec_of_i32(i32::MAX), "2147483647");
}

#[test]
fn decimal_of_negative() {
    assert_eq!(dec_of_i32(-5), "-5");
    assert_eq!(dec_of_i32(i32::MIN), "-2147483648");
}

#[test]
fn plain_name_unchanged() {
    assert_eq!(escape_json_string("Tom"), "Tom");
}

#[test]
fn quote_and_backslash_escaped() {
    assert_eq!(escape_json_string("a\"b"), "a\\\"b");
    assert_eq!(escape_json_string("a\\b"), "a\\\\b");
}

#[test]
fn named_control_characters_escaped() {
    assert_eq!(escape_json_string("a\nb"), "a\\nb");
    assert_eq!(escape_json_string("a\rb"), "a\\rb");
    assert_eq!(escape_json_string("a\tb"), "a\\tb");
    assert_eq!(escape_json_string("a\u{8}b"), "a\\bb");
    assert_eq!(escape_json_string("a\u{c}b"), "a\\fb");
}

#[test]
fn other_control_characters_escaped_as_hex() {
    assert_eq!(escape_json_string("a\u{1}b"), "a\\u0001b");
    assert_eq!(escape_json_string("a\u{1f}b"), "a\\u001fb");
}

#[test]
fn cat_object() {
    assert_eq!(cat_to_json(&cat(1, "Tom")), "{\"id\":1,\"name\":\"Tom\"}");
}

#[test]
fn cat_object_with_negative_id_and_escaping() {
    assert_eq!(
        cat_to_json(&cat(-7, "a\"b")),
        "{\"id\":-7,\"name\":\"a\\\"b\"}"
    );
}

#[test]
fn empty_array() {
    let rows: Vec<Cat> = Vec::new();
    assert_eq!(cats_to_json(&rows), "[]");
}

#[test]
fn array_of_two() {
    let rows = vec![cat(1, "Tom"), cat(2, "Felix")];
    assert_eq!(
        cats_to_json(&rows),
        "[{\"id\":1,\"name\":\"Tom\"},{\"id\":2,\"name\":\"Felix\"}]"
    );
}
