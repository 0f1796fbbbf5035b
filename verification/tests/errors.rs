//! The rendered error messages, character for character.

use webhook::checker::validate;
use webhook::components::{ActionRow, NonLinkButtonStyle, RegularButton};
use webhook::models::{Embed, Message};

fn error_message(message: Message) -> String {
    match validate(&message) {
        Err(e) => e.message(),
        Ok(_) => panic!("expected a validation error"),
    }
}

#[test]
fn length_exceeded_message_rendering() {
    let message = Message::new().action_row(ActionRow::new().regular_button(
        RegularButton::new().style(NonLinkButtonStyle::Primary).custom_id(&"a".repeat(101)),
    ));
    assert_eq!(
        error_message(message),
        "Custom ID length (101) not in the [1, 100] interval"
    );
}

#[test]
fn zero_is_rendered() {
    let message = Message::new().action_row(ActionRow::new().regular_button(
        RegularButton::new().style(NonLinkButtonStyle::Primary).custom_id(""),
    ));
    assert_eq!(
        error_message(message),
        "Custom ID length (0) not in the [1, 100] interval"
    );
}

#[test]
fn limit_exceeded_message_rendering() {
    let mut message = Message::new();
    for _ in 0..6 {
        message = message.action_row(ActionRow::new());
    }
    assert_eq!(
        error_message(message),
        "Action row count (6) not in the [0, 5] interval"
    );
}

#[test]
fn multi_digit_counter_rendering() {
    let message = Message::new()
        .embed(Embed::new().description(&"a".repeat(4096)))
        .embed(Embed::new().description(&"a".repeat(4096)));
    assert_eq!(
        error_message(message),
        "Character count across all embeds (8192) not in the [0, 6000] interval"
    );
}

#[test]
fn duplicate_identifier_message_rendering() {
    let message = Message::new().action_row(
        ActionRow::new()
            .regular_button(RegularButton::new().style(NonLinkButtonStyle::Primary).custom_id("0"))
            .regular_button(RegularButton::new().style(NonLinkButtonStyle::Primary).custom_id("0")),
    );
    assert_eq!(
        error_message(message),
        "Attempt to use the same custom ID (0) twice!"
    );
}

#[test]
fn missing_required_field_message_rendering() {
    let message = Message::new()
        .action_row(ActionRow::new().regular_button(RegularButton::new().custom_id("0")));
    assert_eq!(error_message(message), "The style of the button must be set!");
}

#[test]
fn empty_composite_message_rendering() {
    let message = Message::new().action_row(ActionRow::new());
    assert_eq!(error_message(message), "Empty action row detected!");
}
