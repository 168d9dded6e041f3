use commodore::{Attachment, Field, Response};

#[test]
fn test_builder_default() {
    let json = Response::builder().build().to_json();
    assert_eq!(json, r#"{"response_type":"ephemeral"}"#);
}

#[test]
fn test_builder_options() {
    let res = Response::builder()
        .text("foo")
        .in_channel()
        .attach(Attachment::builder().text("attached").color("red").build())
        .build();
    assert_eq!(
        res.to_json(),
        r#"{"text":"foo","response_type":"in_channel","attachments":[{"text":"attached","color":"red"}]}"#
    );
}

#[test]
fn test_ephemeral_response() {
    assert_eq!(
        Response::ephemeral("test").to_json(),
        r#"{"text":"test","response_type":"ephemeral"}"#
    );
}

#[test]
fn test_in_channel_response() {
    assert_eq!(
        Response::in_channel("test").to_json(),
        r#"{"text":"test","response_type":"in_channel"}"#
    );
}

#[test]
fn escapes_json_strings() {
    assert_eq!(
        Response::ephemeral("a\"b\\c\nd").to_json(),
        "{\"text\":\"a\\\"b\\\\c\\nd\",\"response_type\":\"ephemeral\"}"
    );
    assert_eq!(
        Response::ephemeral("tab\there\u{8}\u{c}\r").to_json(),
        "{\"text\":\"tab\\there\\b\\f\\r\",\"response_type\":\"ephemeral\"}"
    );
    assert_eq!(
        Response::ephemeral("low\u{1}\u{1f}high").to_json(),
        "{\"text\":\"low\\u0001\\u001fhigh\",\"response_type\":\"ephemeral\"}"
    );
}

#[test]
fn attachment_members_in_order() {
    let at = Attachment::builder()
        .text("body")
        .color("green")
        .fallback("fb")
        .pretext("pre")
        .title("t")
        .author_name("an")
        .author_link("al")
        .author_icon("ai")
        .image_url("iu")
        .thumb_url("tu")
        .footer("f")
        .footer_icon("fi")
        .ts(1234567890)
        .field(Field {
            title: "foo".to_owned(),
            value: "value".to_owned(),
            short: false,
        })
        .build();
    let res = Response::builder().attach(at).build();
    let expected = [
        r#"{"response_type":"ephemeral","attachments":[{"text":"body","color":"green","#,
        r#""fallback":"fb","pretext":"pre","title":"t","author_name":"an","author_link":"al","#,
        r#""author_icon":"ai","image_url":"iu","thumb_url":"tu","footer":"f","footer_icon":"fi","#,
        r#""ts":1234567890,"fields":[{"title":"foo","value":"value","short":false}]}]}"#,
    ]
    .join("");
    assert_eq!(res.to_json(), expected);
}

#[test]
fn empty_attachment_serializes_empty_object() {
    let res = Response::builder().attach(Attachment::new()).build();
    assert_eq!(
        res.to_json(),
        r#"{"response_type":"ephemeral","attachments":[{}]}"#
    );
}

#[test]
fn several_attachments_and_fields_join_with_commas() {
    let first = Attachment::builder()
        .field(Field {
            title: "a".to_owned(),
            value: "1".to_owned(),
            short: true,
        })
        .field(Field {
            title: "b".to_owned(),
            value: "2".to_owned(),
            short: false,
        })
        .build();
    let second = Attachment::builder().text("two").build();
    let res = Response::builder().attach(first).attach(second).build();
    let expected = [
        r#"{"response_type":"ephemeral","attachments":["#,
        r#"{"fields":[{"title":"a","value":"1","short":true},{"title":"b","value":"2","short":false}]},"#,
        r#"{"text":"two"}]}"#,
    ]
    .join("");
    assert_eq!(res.to_json(), expected);
}

#[test]
fn builder_scope_can_flip_back() {
    let res = Response::builder().in_channel().ephemeral().build();
    assert_eq!(res.to_json(), r#"{"response_type":"ephemeral"}"#);
    assert_eq!(res.text, None);
    assert_eq!(res.response_type, "ephemeral");
    assert!(res.attachments.is_empty());
}
