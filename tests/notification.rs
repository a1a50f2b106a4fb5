use fcm::{NotificationBuilder, WireField};

fn field_value(fields: &[WireField], key: &str) -> Option<String> {
    fields.iter().find(|f| f.key == key).map(|f| f.value.clone())
}

#[test]
fn should_set_notification_title() {
    let nm = NotificationBuilder::new().finalize();

    assert_eq!(nm.title, None);

    let mut builder = NotificationBuilder::new();
    builder.title("title");
    let nm = builder.finalize();

    assert_eq!(nm.title, Some("title".to_string()));
}

#[test]
fn should_set_notification_body() {
    let nm = NotificationBuilder::new().finalize();

    assert_eq!(nm.body, None);

    let mut builder = NotificationBuilder::new();
    builder.body("body");
    let nm = builder.finalize();

    assert_eq!(nm.body, Some("body".to_string()));
}

#[test]
fn should_set_notification_icon() {
    let mut builder = NotificationBuilder::new();
    builder.icon("newicon");
    let nm = builder.finalize();

    assert_eq!(nm.icon, Some("newicon".to_string()));
}

#[test]
fn should_set_notification_sound() {
    let nm = NotificationBuilder::new().finalize();

    assert_eq!(nm.sound, None);

    let mut builder = NotificationBuilder::new();
    builder.sound("sound.wav");
    let nm = builder.finalize();

    assert_eq!(nm.sound, Some("sound.wav".to_string()));
}

#[test]
fn should_set_notification_badge() {
    let nm = NotificationBuilder::new().finalize();

    assert_eq!(nm.badge, None);

    let mut builder = NotificationBuilder::new();
    builder.badge("1");
    let nm = builder.finalize();

    assert_eq!(nm.badge, Some("1".to_string()));
}

#[test]
fn should_set_notification_tag() {
    let nm = NotificationBuilder::new().finalize();

    assert_eq!(nm.tag, None);

    let mut builder = NotificationBuilder::new();
    builder.tag("tag");
    let nm = builder.finalize();

    assert_eq!(nm.tag, Some("tag".to_string()));
}

#[test]
fn should_set_notification_color() {
    let nm = NotificationBuilder::new().finalize();

    assert_eq!(nm.color, None);

    let mut builder = NotificationBuilder::new();
    builder.color("color");
    let nm = builder.finalize();

    assert_eq!(nm.color, Some("color".to_string()));
}

#[test]
fn should_set_notification_click_action() {
    let nm = NotificationBuilder::new().finalize();

    assert_eq!(nm.click_action, None);

    let mut builder = NotificationBuilder::new();
    builder.click_action("action");
    let nm = builder.finalize();

    assert_eq!(nm.click_action, Some("action".to_string()));
}

#[test]
fn should_set_notification_body_loc_key() {
    let nm = NotificationBuilder::new().finalize();

    assert_eq!(nm.body_loc_key, None);

    let mut builder = NotificationBuilder::new();
    builder.body_loc_key("key");
    let nm = builder.finalize();

    assert_eq!(nm.body_loc_key, Some("key".to_string()));
}

#[test]
fn should_set_notification_body_loc_args() {
    let nm = NotificationBuilder::new().finalize();

    assert_eq!(nm.body_loc_args, None);

    let mut builder = NotificationBuilder::new();
    builder.body_loc_args(vec!["args"]);
    let nm = builder.finalize();

    assert_eq!(nm.body_loc_args, Some(vec!["args".to_string()]));
    assert_eq!(field_value(&nm.wire_fields(), "body_loc_args"), Some("[\"args\"]".to_string()));
}

#[test]
fn should_set_notification_title_loc_key() {
    let nm = NotificationBuilder::new().finalize();

    assert_eq!(nm.title_loc_key, None);

    let mut builder = NotificationBuilder::new();
    builder.title_loc_key("key");
    let nm = builder.finalize();

    assert_eq!(nm.title_loc_key, Some("key".to_string()));
}

#[test]
fn should_set_notification_title_loc_args() {
    let nm = NotificationBuilder::new().finalize();

    assert_eq!(nm.title_loc_args, None);

    let mut builder = NotificationBuilder::new();
    builder.title_loc_args(vec!["args"]);
    let nm = builder.finalize();

    assert_eq!(nm.title_loc_args, Some(vec!["args".to_string()]));
    assert_eq!(field_value(&nm.wire_fields(), "title_loc_args"), Some("[\"args\"]".to_string()));
}

#[test]
fn empty_notification_encodes_as_empty_object() {
    let nm = NotificationBuilder::new().finalize();
    assert!(nm.wire_fields().is_empty());
    assert_eq!(nm.to_json(), "{}");
}

#[test]
fn notification_encodes_only_the_attributes_set() {
    let mut builder = NotificationBuilder::new();
    builder.title("Hey!").body("Do you want to catch up later?");
    builder.body_loc_args(vec!["a", "b"]);
    let nm = builder.finalize();
    assert_eq!(
        nm.to_json(),
        "{\"body\":\"Do you want to catch up later?\",\"body_loc_args\":[\"a\",\"b\"],\"title\":\"Hey!\"}"
    );
}

#[test]
fn notification_text_is_escaped() {
    let mut builder = NotificationBuilder::new();
    builder.title("say \"hi\"\n");
    let nm = builder.finalize();
    assert_eq!(field_value(&nm.wire_fields(), "title"), Some("\"say \\\"hi\\\"\\n\"".to_string()));
    assert_eq!(nm.to_json(), "{\"title\":\"say \\\"hi\\\"\\n\"}");
}

#[test]
fn later_setter_call_replaces_earlier_value() {
    let mut builder = NotificationBuilder::new();
    builder.color("#000000");
    builder.color("#ffffff");
    let nm = builder.finalize();
    assert_eq!(nm.color, Some("#ffffff".to_string()));
}
