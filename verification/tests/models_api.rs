//! The validated message models: setters, mention resolution, and the wire
//! shape of buttons.

use webhook::components::{
    ActionRow, ButtonStyles, LinkButton, NonCompositeComponent, NonLinkButtonStyle, RegularButton,
};
use webhook::models::{AllowedMention, Embed, Message, resolve_allowed_mention_name};

#[test]
fn models_message_setters_assign_fields() {
    let message = Message::new()
        .content("content")
        .username("username")
        .avatar_url("avatar")
        .tts(true);
    assert_eq!(message.content.as_deref(), Some("content"));
    assert_eq!(message.username.as_deref(), Some("username"));
    assert_eq!(message.avatar_url.as_deref(), Some("avatar"));
    assert!(message.tts);
    assert!(message.embeds.is_empty());
    assert!(message.action_rows.is_empty());
}

#[test]
fn embed_setters_assign_fields() {
    let embed = Embed::new()
        .title("title")
        .description("description")
        .url("url")
        .timestamp("timestamp")
        .color("65280")
        .provider("provider", "purl")
        .video("video");
    assert_eq!(embed.embed_type, "rich");
    assert_eq!(embed.title.as_deref(), Some("title"));
    assert_eq!(embed.description.as_deref(), Some("description"));
    assert_eq!(embed.url.as_deref(), Some("url"));
    assert_eq!(embed.timestamp.as_deref(), Some("timestamp"));
    assert_eq!(embed.color.as_deref(), Some("65280"));
    let provider = embed.provider.expect("provider set");
    assert_eq!(provider.name, "provider");
    assert_eq!(provider.url, "purl");
    assert_eq!(embed.video.expect("video set").url, "video");
}

#[test]
fn allowed_mentions_resolve_names() {
    assert_eq!(resolve_allowed_mention_name(AllowedMention::RoleMention), "roles");
    assert_eq!(resolve_allowed_mention_name(AllowedMention::UserMention), "users");
    assert_eq!(resolve_allowed_mention_name(AllowedMention::EveryoneMention), "everyone");

    let message = Message::new().allow_mentions(
        Some(vec![AllowedMention::EveryoneMention, AllowedMention::RoleMention]),
        Some(vec![String::from("role-id")]),
        None,
        true,
    );
    let mentions = message.allow_mentions.expect("mentions set");
    assert_eq!(mentions.parse, Some(vec![String::from("everyone"), String::from("roles")]));
    assert_eq!(mentions.roles, Some(vec![String::from("role-id")]));
    assert_eq!(mentions.users, None);
    assert!(mentions.replied_user);
}

#[test]
fn allowed_mentions_without_classes_is_empty() {
    let message = Message::new().allow_mentions(None, None, None, false);
    let mentions = message.allow_mentions.expect("mentions set");
    assert_eq!(mentions.parse, Some(Vec::new()));
}

#[test]
fn link_button_serializes_to_link_style() {
    let row = ActionRow::new().link_button(
        LinkButton::new().label("label").url("url").emoji("1", "smile", true).disabled(true),
    );
    assert_eq!(row.component_type, 1);
    assert_eq!(row.components.len(), 1);
    let NonCompositeComponent::Button(button) = &row.components[0];
    assert_eq!(button.component_type, 2);
    assert!(matches!(button.style, Some(ButtonStyles::Link)));
    assert_eq!(button.label.as_deref(), Some("label"));
    assert_eq!(button.url.as_deref(), Some("url"));
    assert_eq!(button.custom_id, None);
    assert_eq!(button.disabled, Some(true));
    let emoji = button.emoji.as_ref().expect("emoji set");
    assert_eq!(emoji.id, "1");
    assert_eq!(emoji.name, "smile");
    assert_eq!(emoji.animated, Some(true));
}

#[test]
fn regular_button_serializes_its_style() {
    let row = ActionRow::new().regular_button(
        RegularButton::new().style(NonLinkButtonStyle::Danger).custom_id("id").label("label"),
    );
    let NonCompositeComponent::Button(button) = &row.components[0];
    assert!(matches!(button.style, Some(ButtonStyles::Danger)));
    assert_eq!(button.custom_id.as_deref(), Some("id"));
    assert_eq!(button.url, None);

    let styles = [
        (NonLinkButtonStyle::Primary, 1),
        (NonLinkButtonStyle::Secondary, 2),
        (NonLinkButtonStyle::Success, 3),
        (NonLinkButtonStyle::Danger, 4),
    ];
    for (style, code) in styles {
        let row = ActionRow::new()
            .regular_button(RegularButton::new().style(style).custom_id("id"));
        let NonCompositeComponent::Button(button) = &row.components[0];
        let got = match button.style.as_ref().expect("style set") {
            ButtonStyles::Primary => 1,
            ButtonStyles::Secondary => 2,
            ButtonStyles::Success => 3,
            ButtonStyles::Danger => 4,
            ButtonStyles::Link => 5,
        };
        assert_eq!(got, code);
    }
}
