//! The embed-centric builder iteration: every setter assigns exactly its
//! field, and `build` carries every field over.

use webhook::builder::{EmbedBuilder, Message};

#[test]
fn embed_builder_carries_every_field() {
    let embed = EmbedBuilder::new()
        .title("title")
        .type_("rich")
        .description("description")
        .url("https://example.com")
        .timestamp("2020-01-01T00:00:00Z")
        .color(0x00ff00)
        .field("name", "value", true)
        .footer("footer", Some(String::from("icon")), None)
        .image("image", None, Some(16), Some(32))
        .thumbnail("thumb", None, None, None)
        .author("author", "https://example.com/a", None, None)
        .video("video", Some(640), Some(480))
        .build();

    assert_eq!(embed.title.as_deref(), Some("title"));
    assert_eq!(embed.embed_type.as_deref(), Some("rich"));
    assert_eq!(embed.description.as_deref(), Some("description"));
    assert_eq!(embed.url.as_deref(), Some("https://example.com"));
    assert_eq!(embed.timestamp.as_deref(), Some("2020-01-01T00:00:00Z"));
    assert_eq!(embed.color, Some(0x00ff00));
    assert_eq!(embed.fields.len(), 1);
    assert_eq!(embed.fields[0].name, "name");
    assert_eq!(embed.fields[0].value, "value");
    assert!(embed.fields[0].inline);
    let footer = embed.footer.expect("footer set");
    assert_eq!(footer.text, "footer");
    assert_eq!(footer.icon_url.as_deref(), Some("icon"));
    assert_eq!(footer.proxy_icon_url, None);
    let image = embed.image.expect("image set");
    assert_eq!(image.url.as_deref(), Some("image"));
    assert_eq!(image.height, Some(16));
    assert_eq!(image.width, Some(32));
    let thumbnail = embed.thumbnail.expect("thumbnail set");
    assert_eq!(thumbnail.url.as_deref(), Some("thumb"));
    let author = embed.author.expect("author set");
    assert_eq!(author.name, "author");
    assert_eq!(author.url, "https://example.com/a");
    let video = embed.video.expect("video set");
    assert_eq!(video.url, "video");
    assert_eq!(video.height, Some(640));
    assert_eq!(video.width, Some(480));
}

#[test]
fn message_setters_assign_fields() {
    let message = Message::new()
        .content("content")
        .username("username")
        .avatar_url("avatar")
        .tts(true)
        .embed(EmbedBuilder::new().title("one").build())
        .embed(EmbedBuilder::new().title("two").build());

    assert_eq!(message.content.as_deref(), Some("content"));
    assert_eq!(message.username.as_deref(), Some("username"));
    assert_eq!(message.avatar_url.as_deref(), Some("avatar"));
    assert_eq!(message.tts, Some(true));
    assert_eq!(message.embeds.len(), 2);
    assert_eq!(message.embeds[0].title.as_deref(), Some("one"));
    assert_eq!(message.embeds[1].title.as_deref(), Some("two"));
}

#[test]
fn new_message_is_empty() {
    let message = Message::new();
    assert_eq!(message.content, None);
    assert_eq!(message.username, None);
    assert_eq!(message.avatar_url, None);
    assert_eq!(message.tts, None);
    assert!(message.embeds.is_empty());
}
