use reply_markup::directive::{ForceReply, ReplyKeyboardRemove, True};
use reply_markup::inline::{InlineKeyboardButton, InlineKeyboardButtonKind, InlineKeyboardMarkup};
use reply_markup::keyboard::{reply_keyboard, KeyboardButton, ReplyKeyboardMarkup};
use reply_markup::markup::ReplyMarkup;

fn inline() -> InlineKeyboardMarkup {
    InlineKeyboardMarkup {
        inline_keyboard: vec![vec![
            InlineKeyboardButton {
                text: "A".to_string(),
                kind: InlineKeyboardButtonKind::CallbackData("cb1".to_string()),
            },
            InlineKeyboardButton {
                text: "B".to_string(),
                kind: InlineKeyboardButtonKind::Url("https://example.org".to_string()),
            },
        ]],
    }
}

fn keyboard() -> ReplyKeyboardMarkup {
    let mut keyboard = reply_keyboard(vec![vec![KeyboardButton::from("yes"), KeyboardButton::from("no")]]);
    keyboard.one_time_keyboard = true;
    keyboard
}

#[test]
fn from_wraps_each_family_in_its_own_variant() {
    assert_eq!(ReplyMarkup::from(inline()), ReplyMarkup::InlineKeyboardMarkup(inline()));
    assert_eq!(ReplyMarkup::from(keyboard()), ReplyMarkup::ReplyKeyboardMarkup(keyboard()));
    let remove = ReplyKeyboardRemove { remove_keyboard: True, selective: true };
    assert_eq!(ReplyMarkup::from(remove.clone()), ReplyMarkup::ReplyKeyboardRemove(remove));
    let force = ForceReply { force_reply: True, selective: false };
    assert_eq!(ReplyMarkup::from(force.clone()), ReplyMarkup::ForceReply(force));
}

#[test]
fn inline_keyboard_in_a_control_encodes_as_itself() {
    let direct = inline().serialize();
    let wrapped = ReplyMarkup::from(inline()).serialize();
    assert_eq!(wrapped, direct);
    assert_eq!(wrapped.to_json(), direct.to_json());
    assert_eq!(
        wrapped.to_json(),
        "{\"inline_keyboard\":[[{\"text\":\"A\",\"callback_data\":\"cb1\"},\
         {\"text\":\"B\",\"url\":\"https://example.org\"}]]}"
    );
}

#[test]
fn text_keyboard_in_a_control_encodes_as_itself() {
    let direct = keyboard().serialize();
    let wrapped = ReplyMarkup::from(keyboard()).serialize();
    assert_eq!(wrapped, direct);
    assert_eq!(wrapped.to_json(), direct.to_json());
    assert_eq!(
        wrapped.to_json(),
        "{\"keyboard\":[[{\"text\":\"yes\"},{\"text\":\"no\"}]],\"one_time_keyboard\":true}"
    );
}

#[test]
fn remove_directive_in_a_control_encodes_as_itself() {
    let remove = ReplyKeyboardRemove { remove_keyboard: True, selective: true };
    let direct = remove.serialize();
    let wrapped = ReplyMarkup::from(remove).serialize();
    assert_eq!(wrapped, direct);
    assert_eq!(wrapped.to_json(), direct.to_json());
    assert_eq!(wrapped.to_json(), "{\"remove_keyboard\":true,\"selective\":true}");
}

#[test]
fn force_directive_in_a_control_encodes_as_itself() {
    let force = ForceReply { force_reply: True, selective: false };
    let direct = force.serialize();
    let wrapped = ReplyMarkup::from(force).serialize();
    assert_eq!(wrapped, direct);
    assert_eq!(wrapped.to_json(), direct.to_json());
    assert_eq!(wrapped.to_json(), "{\"force_reply\":true}");
}

#[test]
fn into_builds_the_same_control_as_from() {
    let control: ReplyMarkup = keyboard().into();
    assert_eq!(control, ReplyMarkup::from(keyboard()));
}

#[test]
fn the_four_families_have_four_different_shapes() {
    let texts = [
        ReplyMarkup::from(InlineKeyboardMarkup { inline_keyboard: Vec::new() }).serialize().to_json(),
        ReplyMarkup::from(ReplyKeyboardMarkup::new()).serialize().to_json(),
        ReplyMarkup::from(ReplyKeyboardRemove { remove_keyboard: True, selective: false })
            .serialize()
            .to_json(),
        ReplyMarkup::from(ForceReply { force_reply: True, selective: false }).serialize().to_json(),
    ];
    assert_eq!(
        texts,
        [
            "{\"inline_keyboard\":[]}".to_string(),
            "{\"keyboard\":[]}".to_string(),
            "{\"remove_keyboard\":true}".to_string(),
            "{\"force_reply\":true}".to_string(),
        ]
    );
}
