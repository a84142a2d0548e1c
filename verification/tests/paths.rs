use urban_dictionary::{UrbanDictionary, define_by_id_path, random_path, tool_tip_path};

#[test]
fn define_path_encodes_a_space() {
    let client = UrbanDictionary::new("foo bar", 1);
    assert_eq!(client.define_path(), "define?term=foo%20bar&page=1");
}

#[test]
fn define_path_encodes_an_ampersand() {
    let client = UrbanDictionary::new("a&b", 2);
    assert_eq!(client.define_path(), "define?term=a%26b&page=2");
}

#[test]
fn define_path_encodes_with_upper_case_hex() {
    let client = UrbanDictionary::new("a?b", 1);
    assert_eq!(client.define_path(), "define?term=a%3Fb&page=1");
}

#[test]
fn define_path_keeps_unreserved_characters() {
    let client = UrbanDictionary::new("hello-w_o.r~d9", 3);
    assert_eq!(client.define_path(), "define?term=hello-w_o.r~d9&page=3");
}

#[test]
fn define_path_takes_a_negative_page() {
    let client = UrbanDictionary::new("x", -4);
    assert_eq!(client.define_path(), "define?term=x&page=-4");
}

#[test]
fn random_path_is_fixed() {
    assert_eq!(random_path(), "random");
}

#[test]
fn define_by_id_path_renders_the_id() {
    assert_eq!(define_by_id_path(42), "define?defid=42");
    assert_eq!(define_by_id_path(0), "define?defid=0");
    assert_eq!(define_by_id_path(-7), "define?defid=-7");
}

#[test]
fn define_by_id_path_renders_the_extreme_ids() {
    assert_eq!(define_by_id_path(i64::MAX), "define?defid=9223372036854775807");
    assert_eq!(define_by_id_path(i64::MIN), "define?defid=-9223372036854775808");
}

#[test]
fn tool_tip_path_leaves_the_term_as_it_is() {
    assert_eq!(tool_tip_path("foo bar"), "tooltip?term=foo bar");
    assert_eq!(tool_tip_path("a&b"), "tooltip?term=a&b");
}
