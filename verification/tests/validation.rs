//! The validation engine held against whole messages: every limit, the
//! uniqueness rule, and the fail-fast error policy.

use webhook::checker::validate;
use webhook::components::{ActionRow, LinkButton, NonLinkButtonStyle, RegularButton};
use webhook::context::MessageContext;
use webhook::error::ValidationError;
use webhook::models::{Embed, EmbedAuthor, EmbedField, EmbedFooter, Message};

fn assert_message_error(message: Message, needles: Vec<&str>) {
    let mut context = MessageContext::new();
    match message.check_compatibility(&mut context) {
        Err(err) => {
            let rendered = err.message().to_lowercase();
            for needle in needles {
                assert!(rendered.contains(needle), "Unexpected error message {}", rendered);
            }
        }
        Ok(_) => assert!(false, "Error is expected"),
    }
}

fn assert_valid_message(message: Message) {
    if let Err(unexpected) = validate(&message) {
        assert!(false, "Unexpected validation error {}", unexpected.message());
    }
}

#[test]
fn empty_action_row_prohibited() {
    assert_message_error(
        Message::new().action_row(ActionRow::new()),
        vec!["action row", "empty"],
    );
}

#[test]
fn send_message_custom_id_reuse_prohibited() {
    assert_message_error(
        Message::new().action_row(
            ActionRow::new()
                .regular_button(
                    RegularButton::new().custom_id("0").style(NonLinkButtonStyle::Primary),
                )
                .regular_button(
                    RegularButton::new().custom_id("0").style(NonLinkButtonStyle::Primary),
                ),
        ),
        vec!["twice"],
    );
}

#[test]
fn send_message_custom_id_reuse_prohibited_across_action_rows() {
    assert_message_error(
        Message::new()
            .action_row(ActionRow::new().regular_button(
                RegularButton::new().custom_id("0").style(NonLinkButtonStyle::Primary),
            ))
            .action_row(ActionRow::new().regular_button(
                RegularButton::new().custom_id("0").style(NonLinkButtonStyle::Primary),
            )),
        vec!["twice"],
    );
}

#[test]
fn send_message_button_style_required() {
    assert_message_error(
        Message::new()
            .action_row(ActionRow::new().regular_button(RegularButton::new().custom_id("0"))),
        vec!["style"],
    );
}

#[test]
fn send_message_url_required() {
    assert_message_error(
        Message::new().action_row(ActionRow::new().link_button(LinkButton::new().label("test"))),
        vec!["url"],
    );
}

#[test]
fn send_message_max_action_rows_enforced() {
    let mut message = Message::new();
    for _ in 0..(Message::action_row_count_interval().max_allowed + 1) {
        message = message.action_row(ActionRow::new());
    }
    assert_message_error(message, vec!["interval", "row"]);
}

#[test]
fn send_message_max_label_len_enforced() {
    assert_message_error(
        Message::new().action_row(
            ActionRow::new().regular_button(
                RegularButton::new()
                    .style(NonLinkButtonStyle::Primary)
                    .custom_id("a")
                    .label(&"l".repeat(Message::label_len_interval().max_allowed + 1)),
            ),
        ),
        vec!["interval", "label"],
    );
}

#[test]
fn send_message_custom_id_required() {
    assert_message_error(
        Message::new().action_row(
            ActionRow::new().regular_button(RegularButton::new().style(NonLinkButtonStyle::Primary)),
        ),
        vec!["custom id"],
    );
}

#[test]
fn send_message_max_custom_id_len_enforced() {
    assert_message_error(
        Message::new().action_row(
            ActionRow::new().regular_button(
                RegularButton::new()
                    .style(NonLinkButtonStyle::Primary)
                    .custom_id(&"a".repeat(Message::custom_id_len_interval().max_allowed + 1)),
            ),
        ),
        vec!["interval", "custom id"],
    );
}

#[test]
fn max_button_count_enforced() {
    let mut row = ActionRow::new();
    for i in 0..(ActionRow::button_count_interval().max_allowed + 1) {
        row = row.regular_button(
            RegularButton::new()
                .style(NonLinkButtonStyle::Primary)
                .custom_id(&i.to_string()),
        );
    }
    assert_message_error(Message::new().action_row(row), vec!["interval", "button"]);
}

#[test]
fn max_button_count_enforced_only_per_action_row() {
    let mut message = Message::new();
    for i in 0..Message::action_row_count_interval().max_allowed {
        let mut row = ActionRow::new();
        for j in 0..ActionRow::button_count_interval().max_allowed {
            row = row.regular_button(
                RegularButton::new()
                    .style(NonLinkButtonStyle::Primary)
                    .custom_id(&(i.to_string() + &j.to_string())),
            );
        }
        message = message.action_row(row);
    }
    assert_valid_message(message);
}

#[test]
fn message_valid_basic() {
    assert_valid_message(
        Message::new()
            .content("@test")
            .username("test")
            .avatar_url("test")
            .embed(
                Embed::new()
                    .title("test")
                    .description("test")
                    .footer("test", Some(String::from("test")))
                    .image("test")
                    .thumbnail("test")
                    .author("test", Some(String::from("test")), Some(String::from("test")))
                    .field("test", "test", false),
            ),
    );
}

#[test]
fn embed_title_len_enforced() {
    assert_message_error(
        Message::new()
            .embed(Embed::new().title(&"a".repeat(Embed::title_len_interval().max_allowed + 1))),
        vec!["interval", "embed", "title", "length"],
    );
}

#[test]
fn embed_description_len_enforced() {
    assert_message_error(
        Message::new().embed(
            Embed::new().description(&"a".repeat(Embed::description_len_interval().max_allowed + 1)),
        ),
        vec!["interval", "embed", "description", "length"],
    );
}

#[test]
fn embed_author_name_len_enforced() {
    assert_message_error(
        Message::new().embed(Embed::new().author(
            &"a".repeat(EmbedAuthor::name_len_interval().max_allowed + 1),
            None,
            None,
        )),
        vec!["interval", "embed", "author", "name", "length"],
    );
}

#[test]
fn embed_footer_text_len_enforced() {
    assert_message_error(
        Message::new().embed(
            Embed::new().footer(&"a".repeat(EmbedFooter::text_len_interval().max_allowed + 1), None),
        ),
        vec!["interval", "embed", "footer", "text", "length"],
    );
}

#[test]
fn embed_field_name_len_enforced() {
    assert_message_error(
        Message::new().embed(Embed::new().field(
            &"a".repeat(EmbedField::name_len_interval().max_allowed + 1),
            "None",
            false,
        )),
        vec!["interval", "embed", "field", "name", "length"],
    );
}

#[test]
fn embed_field_value_len_enforced() {
    assert_message_error(
        Message::new().embed(Embed::new().field(
            "None",
            &"a".repeat(EmbedField::value_len_interval().max_allowed + 1),
            false,
        )),
        vec!["interval", "embed", "field", "value", "length"],
    );
}

#[test]
fn embed_total_char_length_enforced() {
    // adds 2 embeds with maximum length descriptions
    // which should overflow the maximum allowed characters for embeds in total
    assert!(
        Embed::description_len_interval().max_allowed * 2
            > Message::embed_total_text_len_interval().max_allowed,
        "Key test values modified, fix this test!"
    );

    assert_message_error(
        Message::new()
            .embed(
                Embed::new().description(&"a".repeat(Embed::description_len_interval().max_allowed)),
            )
            .embed(
                Embed::new().description(&"a".repeat(Embed::description_len_interval().max_allowed)),
            ),
        vec!["interval", "character", "count", "embed"],
    );
}

#[test]
fn field_count_limit_enforced() {
    let mut embed = Embed::new();
    for _ in 0..(Embed::fields_len_interval().max_allowed + 1) {
        embed = embed.field("None", "a", false);
    }
    match validate(&Message::new().embed(embed)) {
        Err(ValidationError::LimitExceeded { value, max_allowed, .. }) => {
            assert_eq!(value, 26);
            assert_eq!(max_allowed, 25);
        }
        other => panic!("expected a field count violation, got {:?}", other.is_ok()),
    }

    let mut full = Embed::new();
    for i in 0..Embed::fields_len_interval().max_allowed {
        full = full.field(&i.to_string(), "a", false);
    }
    assert_valid_message(Message::new().embed(full));
}

fn test_is_send<T>(t: T)
where
    T: Send,
{
    drop(t);
}

#[test]
fn message_is_send() {
    let message = Message::new();
    // this should not compile if Message is not Send
    test_is_send(message);
}
