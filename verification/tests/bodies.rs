use urban_dictionary::{
    Response, UrbanDictionaryError, entries_from_body, first_entry_from_body, tool_tip_from_body,
};

fn one_entry_body() -> String {
    "{\"list\":[{\
     \"definition\":\"To dance\",\
     \"permalink\":\"https://example.com/1\",\
     \"thumbs_up\":10,\
     \"sound_urls\":[\"https://example.com/a.mp3\"],\
     \"author\":\"ada\",\
     \"word\":\"boogie\",\
     \"defid\":42,\
     \"written_on\":\"2010-01-01T00:00:00.000Z\",\
     \"example\":\"Let us boogie\",\
     \"thumbs_down\":3\
     }]}"
        .to_string()
}

fn expected_entry() -> Response {
    Response {
        definition: "To dance".to_string(),
        permalink: "https://example.com/1".to_string(),
        thumbs_up: 10,
        sound_urls: vec!["https://example.com/a.mp3".to_string()],
        author: "ada".to_string(),
        word: "boogie".to_string(),
        defid: 42,
        written_on: "2010-01-01T00:00:00.000Z".to_string(),
        example: "Let us boogie".to_string(),
        thumbs_down: 3,
    }
}

#[test]
fn single_entry_decodes_field_for_field() {
    let body = one_entry_body();
    let r = first_entry_from_body(Some(&body));
    match r {
        Ok(entry) => assert_eq!(entry, expected_entry()),
        Err(_) => panic!("a well-formed single-entry body must decode"),
    }
}

#[test]
fn list_decode_keeps_the_order() {
    let body = "{\"list\":[\
        {\"definition\":\"d1\",\"permalink\":\"p1\",\"thumbs_up\":1,\"sound_urls\":[],\
        \"author\":\"a1\",\"word\":\"w1\",\"defid\":1,\"written_on\":\"t1\",\
        \"example\":\"e1\",\"thumbs_down\":0},\
        {\"definition\":\"d2\",\"permalink\":\"p2\",\"thumbs_up\":2,\"sound_urls\":[],\
        \"author\":\"a2\",\"word\":\"w2\",\"defid\":2,\"written_on\":\"t2\",\
        \"example\":\"e2\",\"thumbs_down\":0}\
        ]}";
    let r = entries_from_body(Some(body)).expect("two entries must decode");
    assert_eq!(r.len(), 2);
    assert_eq!(r[0].defid, 1);
    assert_eq!(r[0].word, "w1");
    assert_eq!(r[1].defid, 2);
    assert_eq!(r[1].word, "w2");
}

#[test]
fn empty_list_is_empty_result_on_lookup() {
    let r = entries_from_body(Some("{\"list\":[]}"));
    assert!(matches!(r, Err(UrbanDictionaryError::EmptyResult)));
}

#[test]
fn empty_list_is_empty_result_on_lookup_by_id() {
    let r = first_entry_from_body(Some("{\"list\":[]}"));
    assert!(matches!(r, Err(UrbanDictionaryError::EmptyResult)));
}

#[test]
fn missing_required_field_is_a_decode_error() {
    // as one_entry_body, but without "defid"
    let body = "{\"list\":[{\
        \"definition\":\"To dance\",\
        \"permalink\":\"https://example.com/1\",\
        \"thumbs_up\":10,\
        \"sound_urls\":[],\
        \"author\":\"ada\",\
        \"word\":\"boogie\",\
        \"written_on\":\"2010-01-01T00:00:00.000Z\",\
        \"example\":\"Let us boogie\",\
        \"thumbs_down\":3\
        }]}";
    let r = entries_from_body(Some(body));
    assert!(matches!(r, Err(UrbanDictionaryError::DecodeError)));
}

#[test]
fn mistyped_field_is_a_decode_error() {
    let body = "{\"list\":[{\"definition\":\"d\",\"permalink\":\"p\",\"thumbs_up\":\"many\",\
                \"sound_urls\":[],\"author\":\"a\",\"word\":\"w\",\"defid\":1,\
                \"written_on\":\"t\",\"example\":\"e\",\"thumbs_down\":0}]}";
    let r = entries_from_body(Some(body));
    assert!(matches!(r, Err(UrbanDictionaryError::DecodeError)));
}

#[test]
fn non_string_sound_url_is_a_decode_error() {
    let body = "{\"list\":[{\"definition\":\"d\",\"permalink\":\"p\",\"thumbs_up\":1,\
                \"sound_urls\":[7],\"author\":\"a\",\"word\":\"w\",\"defid\":1,\
                \"written_on\":\"t\",\"example\":\"e\",\"thumbs_down\":0}]}";
    let r = entries_from_body(Some(body));
    assert!(matches!(r, Err(UrbanDictionaryError::DecodeError)));
}

#[test]
fn non_integer_number_in_a_read_field_is_a_decode_error() {
    let body = "{\"list\":[{\"definition\":\"d\",\"permalink\":\"p\",\"thumbs_up\":1,\
                \"sound_urls\":[],\"author\":\"a\",\"word\":\"w\",\"defid\":1.5,\
                \"written_on\":\"t\",\"example\":\"e\",\"thumbs_down\":0}]}";
    let r = entries_from_body(Some(body));
    assert!(matches!(r, Err(UrbanDictionaryError::DecodeError)));
}

#[test]
fn non_integer_number_in_an_ignored_field_is_harmless() {
    let body = "{\"score\":4.5,\"list\":[{\
        \"definition\":\"d\",\"permalink\":\"p\",\"thumbs_up\":1,\"sound_urls\":[],\
        \"author\":\"a\",\"word\":\"w\",\"defid\":5,\"written_on\":\"t\",\
        \"example\":\"e\",\"thumbs_down\":0,\"similarity\":0.25\
        }]}";
    let r = entries_from_body(Some(body)).expect("a float in an unread field must not break decoding");
    assert_eq!(r.len(), 1);
    assert_eq!(r[0].defid, 5);
}

#[test]
fn unknown_fields_are_ignored() {
    let body = "{\"pages\":9,\"list\":[{\
        \"definition\":\"d\",\"permalink\":\"p\",\"thumbs_up\":1,\"sound_urls\":[],\
        \"author\":\"a\",\"word\":\"w\",\"defid\":5,\"written_on\":\"t\",\
        \"example\":\"e\",\"thumbs_down\":0,\"current_vote\":\"\"\
        }]}";
    let r = entries_from_body(Some(body)).expect("extra fields must not break decoding");
    assert_eq!(r.len(), 1);
    assert_eq!(r[0].defid, 5);
}

#[test]
fn invalid_json_is_a_decode_error() {
    let r = entries_from_body(Some("not json at all"));
    assert!(matches!(r, Err(UrbanDictionaryError::DecodeError)));
}

#[test]
fn missing_envelope_is_a_decode_error() {
    let r = entries_from_body(Some("{\"items\":[]}"));
    assert!(matches!(r, Err(UrbanDictionaryError::DecodeError)));
    let r = entries_from_body(Some("[1,2,3]"));
    assert!(matches!(r, Err(UrbanDictionaryError::DecodeError)));
}

#[test]
fn absent_body_is_a_transport_error() {
    assert!(matches!(entries_from_body(None), Err(UrbanDictionaryError::TransportError)));
    assert!(matches!(first_entry_from_body(None), Err(UrbanDictionaryError::TransportError)));
    assert!(matches!(tool_tip_from_body(None), Err(UrbanDictionaryError::TransportError)));
}

#[test]
fn tooltip_returns_the_raw_string_text() {
    let r = tool_tip_from_body(Some("{\"string\":\"hello\"}"));
    assert_eq!(r.expect("a string tooltip must decode"), "hello");
}

#[test]
fn tooltip_string_text_is_not_requoted() {
    let r = tool_tip_from_body(Some("{\"string\":\"a\\\"b\\\\c\\nd\"}"));
    assert_eq!(r.expect("an escaped tooltip must decode"), "a\"b\\c\nd");
}

#[test]
fn tooltip_renders_scalars() {
    assert_eq!(tool_tip_from_body(Some("{\"string\":5}")).unwrap(), "5");
    assert_eq!(tool_tip_from_body(Some("{\"string\":true}")).unwrap(), "true");
    assert_eq!(tool_tip_from_body(Some("{\"string\":null}")).unwrap(), "null");
    assert_eq!(tool_tip_from_body(Some("{\"string\":1.5}")).unwrap(), "1.5");
}

#[test]
fn tooltip_renders_an_array_as_json_text() {
    let r = tool_tip_from_body(Some("{\"string\":[1,\"x\",null]}"));
    assert_eq!(r.expect("an array tooltip must succeed"), "[1,\"x\",null]");
    let r = tool_tip_from_body(Some("{\"string\":[]}"));
    assert_eq!(r.expect("an empty array tooltip must succeed"), "[]");
}

#[test]
fn tooltip_renders_an_object_as_json_text() {
    let r = tool_tip_from_body(Some("{\"string\":{\"a\":1,\"b\":[true]}}"));
    assert_eq!(r.expect("an object tooltip must succeed"), "{\"a\":1,\"b\":[true]}");
}

#[test]
fn tooltip_escapes_strings_inside_composite_values() {
    let r = tool_tip_from_body(Some("{\"string\":[\"a\\\"b\"]}"));
    assert_eq!(r.expect("a nested string tooltip must succeed"), "[\"a\\\"b\"]");
}

#[test]
fn tooltip_without_the_key_is_a_decode_error() {
    let r = tool_tip_from_body(Some("{}"));
    assert!(matches!(r, Err(UrbanDictionaryError::DecodeError)));
}

#[test]
fn tooltip_on_invalid_json_is_a_decode_error() {
    let r = tool_tip_from_body(Some("{"));
    assert!(matches!(r, Err(UrbanDictionaryError::DecodeError)));
}
