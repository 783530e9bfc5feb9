use reply_markup::document::Value;
use reply_markup::keyboard::{reply_keyboard, KeyboardButton, ReplyKeyboardMarkup};

fn object(fields: Vec<(&str, Value)>) -> Value {
    Value::Object(fields.into_iter().map(|(name, value)| (name.to_string(), value)).collect())
}

fn text(value: &str) -> Value {
    Value::Str(value.to_string())
}

fn plain(label: &str) -> Value {
    object(vec![("text", text(label))])
}

#[test]
fn button_from_text_has_both_flags_off() {
    let button = KeyboardButton::from("Hello");
    assert_eq!(
        button,
        KeyboardButton { text: "Hello".to_string(), request_contact: false, request_location: false }
    );
}

#[test]
fn button_from_text_through_into() {
    let button: KeyboardButton = "Hi".into();
    assert_eq!(button.text, "Hi");
    assert!(!button.request_contact);
    assert!(!button.request_location);
}

#[test]
fn plain_button_holds_only_its_text() {
    let document = KeyboardButton::from("Hello").serialize();
    assert_eq!(document, plain("Hello"));
    assert_eq!(document.to_json(), "{\"text\":\"Hello\"}");
}

#[test]
fn request_contact_is_written_only_when_set() {
    let mut button = KeyboardButton::from("Phone");
    assert_eq!(button.serialize().to_json(), "{\"text\":\"Phone\"}");
    button.request_contact = true;
    assert_eq!(
        button.serialize(),
        object(vec![("text", text("Phone")), ("request_contact", Value::Bool(true))])
    );
    assert_eq!(button.serialize().to_json(), "{\"text\":\"Phone\",\"request_contact\":true}");
}

#[test]
fn request_location_is_written_only_when_set() {
    let mut button = KeyboardButton::from("Where");
    assert_eq!(button.serialize().to_json(), "{\"text\":\"Where\"}");
    button.request_location = true;
    assert_eq!(
        button.serialize(),
        object(vec![("text", text("Where")), ("request_location", Value::Bool(true))])
    );
    assert_eq!(button.serialize().to_json(), "{\"text\":\"Where\",\"request_location\":true}");
}

#[test]
fn both_request_flags_may_be_set() {
    let button =
        KeyboardButton { text: "Both".to_string(), request_contact: true, request_location: true };
    assert_eq!(
        button.serialize().to_json(),
        "{\"text\":\"Both\",\"request_contact\":true,\"request_location\":true}"
    );
}

#[test]
fn new_keyboard_is_empty_with_flags_off() {
    let keyboard = ReplyKeyboardMarkup::new();
    assert!(keyboard.keyboard.is_empty());
    assert!(!keyboard.resize_keyboard);
    assert!(!keyboard.one_time_keyboard);
    assert!(!keyboard.selective);
}

#[test]
fn new_keyboard_encodes_as_empty_grid() {
    let keyboard = ReplyKeyboardMarkup::new();
    assert_eq!(keyboard.serialize(), object(vec![("keyboard", Value::Array(Vec::new()))]));
    assert_eq!(keyboard.serialize().to_json(), "{\"keyboard\":[]}");
}

#[test]
fn builder_without_rows_is_the_empty_keyboard() {
    assert_eq!(reply_keyboard(Vec::new()), ReplyKeyboardMarkup::new());
    assert_eq!(reply_keyboard(Vec::new()).serialize().to_json(), "{\"keyboard\":[]}");
}

#[test]
fn builder_keeps_rows_and_sets_no_flag() {
    let keyboard = reply_keyboard(vec![
        vec![KeyboardButton::from("a"), KeyboardButton::from("b")],
        vec![KeyboardButton::from("c")],
    ]);
    assert_eq!(
        keyboard,
        ReplyKeyboardMarkup {
            keyboard: vec![
                vec![KeyboardButton::from("a"), KeyboardButton::from("b")],
                vec![KeyboardButton::from("c")],
            ],
            resize_keyboard: false,
            one_time_keyboard: false,
            selective: false,
        }
    );
    assert_eq!(
        keyboard.serialize(),
        object(vec![(
            "keyboard",
            Value::Array(vec![
                Value::Array(vec![plain("a"), plain("b")]),
                Value::Array(vec![plain("c")]),
            ]),
        )])
    );
    assert_eq!(
        keyboard.serialize().to_json(),
        "{\"keyboard\":[[{\"text\":\"a\"},{\"text\":\"b\"}],[{\"text\":\"c\"}]]}"
    );
}

#[test]
fn builder_takes_buttons_with_flags() {
    let contact =
        KeyboardButton { text: "me".to_string(), request_contact: true, request_location: false };
    let keyboard = reply_keyboard(vec![vec![KeyboardButton::from("skip"), contact]]);
    assert_eq!(
        keyboard.serialize().to_json(),
        "{\"keyboard\":[[{\"text\":\"skip\"},{\"text\":\"me\",\"request_contact\":true}]]}"
    );
}

fn with_flags(resize: bool, one_time: bool, selective: bool) -> ReplyKeyboardMarkup {
    let mut keyboard = ReplyKeyboardMarkup::new();
    keyboard.resize_keyboard = resize;
    keyboard.one_time_keyboard = one_time;
    keyboard.selective = selective;
    keyboard
}

#[test]
fn resize_keyboard_is_written_only_when_set() {
    assert_eq!(with_flags(false, false, false).serialize().to_json(), "{\"keyboard\":[]}");
    assert_eq!(
        with_flags(true, false, false).serialize().to_json(),
        "{\"keyboard\":[],\"resize_keyboard\":true}"
    );
}

#[test]
fn one_time_keyboard_is_written_only_when_set() {
    assert_eq!(
        with_flags(false, true, false).serialize().to_json(),
        "{\"keyboard\":[],\"one_time_keyboard\":true}"
    );
}

#[test]
fn selective_keyboard_is_written_only_when_set() {
    assert_eq!(
        with_flags(false, false, true).serialize().to_json(),
        "{\"keyboard\":[],\"selective\":true}"
    );
}

#[test]
fn all_keyboard_flags_in_field_order() {
    assert_eq!(
        with_flags(true, true, true).serialize(),
        object(vec![
            ("keyboard", Value::Array(Vec::new())),
            ("resize_keyboard", Value::Bool(true)),
            ("one_time_keyboard", Value::Bool(true)),
            ("selective", Value::Bool(true)),
        ])
    );
    assert_eq!(
        with_flags(true, true, true).serialize().to_json(),
        "{\"keyboard\":[],\"resize_keyboard\":true,\"one_time_keyboard\":true,\"selective\":true}"
    );
    assert_eq!(
        with_flags(true, false, true).serialize().to_json(),
        "{\"keyboard\":[],\"resize_keyboard\":true,\"selective\":true}"
    );
}

#[test]
fn unset_flags_leave_no_key_behind() {
    let keyboard = reply_keyboard(vec![vec![KeyboardButton::from("a")]]);
    let parsed: serde_json::Value = serde_json::from_str(&keyboard.serialize().to_json()).unwrap();
    let fields = parsed.as_object().unwrap();
    assert_eq!(fields.len(), 1);
    for flag in ["resize_keyboard", "one_time_keyboard", "selective"] {
        assert!(!fields.contains_key(flag));
    }
    let button = fields.get("keyboard").unwrap()[0][0].as_object().unwrap();
    assert_eq!(button.len(), 1);
    for flag in ["request_contact", "request_location"] {
        assert!(!button.contains_key(flag));
    }
}

#[test]
fn text_keyboard_rows_keep_their_order() {
    let keyboard = reply_keyboard(vec![
        vec![KeyboardButton::from("1"), KeyboardButton::from("2")],
        vec![KeyboardButton::from("3"), KeyboardButton::from("4")],
    ]);
    assert_eq!(
        keyboard.serialize().to_json(),
        "{\"keyboard\":[[{\"text\":\"1\"},{\"text\":\"2\"}],[{\"text\":\"3\"},{\"text\":\"4\"}]]}"
    );
}
