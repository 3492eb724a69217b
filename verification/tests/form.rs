use lursystem::form::{field_value, non_empty_field, urlencode};
use rustio_admin::FormData;

#[test]
fn reserved_characters_are_encoded() {
    assert_eq!(urlencode("&=?# +"), "%26%3D%3F%23%20%2B");
    assert_eq!(urlencode("a b&c"), "a%20b%26c");
    assert_eq!(urlencode(""), "");
}

#[test]
fn other_characters_pass_through() {
    assert_eq!(urlencode("alice@example.com"), "alice@example.com");
    assert_eq!(urlencode("åäö/\"'%~-_."), "åäö/\"'%~-_.");
}

#[test]
fn encoded_values_are_read_back() {
    for value in ["a b", "a+b", "x&y=z", "#1?", "åäö", "100%", "%zz", "", "a\"b'c<d>"] {
        let query = format!("first={}&second=x", urlencode(value));
        let form = FormData::from_urlencoded(&query);
        assert_eq!(field_value(&form, "first").as_deref(), Some(value));
        assert_eq!(field_value(&form, "second").as_deref(), Some("x"));
        assert_eq!(field_value(&form, "third"), None);
    }
}

#[test]
fn values_that_look_encoded_are_decoded() {
    let form = FormData::from_urlencoded(&format!("v={}", urlencode("a%41")));
    assert_eq!(field_value(&form, "v").as_deref(), Some("aA"));
}

#[test]
fn the_last_of_equal_names_counts() {
    let form = FormData::from_urlencoded("v=1&v=2");
    assert_eq!(field_value(&form, "v").as_deref(), Some("2"));
}

#[test]
fn empty_fields_count_as_missing() {
    let form = FormData::from_urlencoded("empty=&blank=+&full=x");
    assert_eq!(non_empty_field(&form, "empty"), None);
    assert_eq!(non_empty_field(&form, "missing"), None);
    assert_eq!(non_empty_field(&form, "blank").as_deref(), Some(" "));
    assert_eq!(non_empty_field(&form, "full").as_deref(), Some("x"));
}
