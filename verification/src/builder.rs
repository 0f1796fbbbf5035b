//! An earlier, embed-centric iteration of the message API: a builder that
//! assembles embeds field by field, and a message that carries only content,
//! identity and embeds. Kept alongside the validated models for callers of
//! the simple send path.

use vstd::prelude::*;

verus! {

/// The webhook description returned by the remote endpoint.
pub struct WebhookModel {
    pub name: String,
    pub webhook_type: i8,
    pub channel_id: String,
    pub token: Option<String>,
    pub avatar: Option<String>,
    pub guild_id: Option<String>,
    pub user: Option<WebhookUser>,
}

/// The user a webhook acts as.
pub struct WebhookUser {
    pub username: String,
    pub discriminator: String,
    pub id: String,
    pub avatar: String,
}

/// Assembles an [`Embed`] field by field.
pub struct EmbedBuilder {
    pub title: Option<String>,
    pub embed_type: Option<String>,
    pub description: Option<String>,
    pub url: Option<String>,
    pub timestamp: Option<String>,
    pub color: Option<i32>,
    pub fields: Vec<EmbedField>,
    pub footer: Option<EmbedFooter>,
    pub image: Option<EmbedImage>,
    pub thumbnail: Option<EmbedThumbnail>,
    pub author: Option<EmbedAuthor>,
    pub video: Option<EmbedVideo>,
}

/// A rich-content card attached to a message.
pub struct Embed {
    pub title: Option<String>,
    pub embed_type: Option<String>,
    pub description: Option<String>,
    pub url: Option<String>,
    pub timestamp: Option<String>,
    pub color: Option<i32>,
    pub fields: Vec<EmbedField>,
    pub footer: Option<EmbedFooter>,
    pub image: Option<EmbedImage>,
    pub thumbnail: Option<EmbedThumbnail>,
    pub author: Option<EmbedAuthor>,
    pub video: Option<EmbedVideo>,
}

impl EmbedBuilder {
    pub fn new() -> (r: Self)
        ensures
            r.title is None,
            r.embed_type is None,
            r.description is None,
            r.url is None,
            r.timestamp is None,
            r.color is None,
            r.fields@ == Seq::<EmbedField>::empty(),
            r.footer is None,
            r.image is None,
            r.thumbnail is None,
            r.author is None,
            r.video is None,
    {
        Self {
            title: None,
            embed_type: None,
            description: None,
            url: None,
            timestamp: None,
            color: None,
            fields: Vec::new(),
            footer: None,
            image: None,
            thumbnail: None,
            author: None,
            video: None,
        }
    }

    pub fn title(self, title: &str) -> (r: Self)
        ensures
            r.title matches Some(t) && t@ == title@,
            r == (EmbedBuilder { title: r.title, ..self }),
    {
        Self { title: Some(title.to_owned()), ..self }
    }

    pub fn type_(self, type_: &str) -> (r: Self)
        ensures
            r.embed_type matches Some(t) && t@ == type_@,
            r == (EmbedBuilder { embed_type: r.embed_type, ..self }),
    {
        Self { embed_type: Some(type_.to_owned()), ..self }
    }

    pub fn description(self, description: &str) -> (r: Self)
        ensures
            r.description matches Some(d) && d@ == description@,
            r == (EmbedBuilder { description: r.description, ..self }),
    {
        Self { description: Some(description.to_owned()), ..self }
    }

    pub fn url(self, url: &str) -> (r: Self)
        ensures
            r.url matches Some(u) && u@ == url@,
            r == (EmbedBuilder { url: r.url, ..self }),
    {
        Self { url: Some(url.to_owned()), ..self }
    }

    pub fn color(self, color: i32) -> (r: Self)
        ensures
            r.color == Some(color),
            r == (EmbedBuilder { color: r.color, ..self }),
    {
        Self { color: Some(color), ..self }
    }

    pub fn field(self, name: &str, value: &str, inline: bool) -> (r: Self)
        ensures
            r.fields@ == self.fields@.push(r.fields@.last()),
            r.fields@.last().name@ == name@,
            r.fields@.last().value@ == value@,
            r.fields@.last().inline == inline,
            r == (EmbedBuilder { fields: r.fields, ..self }),
    {
        let mut fields = self.fields;
        fields.push(EmbedField::new(name, value, inline));
        Self { fields, ..self }
    }

    pub fn timestamp(self, timestamp: &str) -> (r: Self)
        ensures
            r.timestamp matches Some(t) && t@ == timestamp@,
            r == (EmbedBuilder { timestamp: r.timestamp, ..self }),
    {
        Self { timestamp: Some(timestamp.to_owned()), ..self }
    }

    pub fn footer(self, text: &str, icon_url: Option<String>, proxy_icon_url: Option<String>) -> (r:
        Self)
        ensures
            r.footer matches Some(f) && f.text@ == text@ && f.icon_url == icon_url
                && f.proxy_icon_url == proxy_icon_url,
            r == (EmbedBuilder { footer: r.footer, ..self }),
    {
        Self { footer: Some(EmbedFooter::new(text, icon_url, proxy_icon_url)), ..self }
    }

    pub fn image(
        self,
        url: &str,
        proxy_url: Option<String>,
        height: Option<i32>,
        width: Option<i32>,
    ) -> (r: Self)
        ensures
            r.image matches Some(i) && i.url matches Some(u) && u@ == url@ && i.proxy_url
                == proxy_url && i.height == height && i.width == width,
            r == (EmbedBuilder { image: r.image, ..self }),
    {
        Self { image: Some(EmbedImage::new(url, proxy_url, height, width)), ..self }
    }

    pub fn thumbnail(
        self,
        url: &str,
        proxy_url: Option<String>,
        height: Option<i32>,
        width: Option<i32>,
    ) -> (r: Self)
        ensures
            r.thumbnail matches Some(t) && t.url matches Some(u) && u@ == url@ && t.proxy_url
                == proxy_url && t.height == height && t.width == width,
            r == (EmbedBuilder { thumbnail: r.thumbnail, ..self }),
    {
        Self { thumbnail: Some(EmbedThumbnail::new(url, proxy_url, height, width)), ..self }
    }

    pub fn author(
        self,
        name: &str,
        url: &str,
        icon_url: Option<String>,
        proxy_icon_url: Option<String>,
    ) -> (r: Self)
        ensures
            r.author matches Some(a) && a.name@ == name@ && a.url@ == url@ && a.icon_url == icon_url
                && a.proxy_icon_url == proxy_icon_url,
            r == (EmbedBuilder { author: r.author, ..self }),
    {
        Self { author: Some(EmbedAuthor::new(name, url, icon_url, proxy_icon_url)), ..self }
    }

    pub fn video(self, url: &str, height: Option<i32>, width: Option<i32>) -> (r: Self)
        ensures
            r.video matches Some(v) && v.url@ == url@ && v.height == height && v.width == width,
            r == (EmbedBuilder { video: r.video, ..self }),
    {
        Self { video: Some(EmbedVideo::new(url, height, width)), ..self }
    }

    /// The finished embed, carrying every field as it was set.
    pub fn build(self) -> (r: Embed)
        ensures
            r.title == self.title,
            r.embed_type == self.embed_type,
            r.description == self.description,
            r.url == self.url,
            r.timestamp == self.timestamp,
            r.color == self.color,
            r.fields == self.fields,
            r.footer == self.footer,
            r.image == self.image,
            r.thumbnail == self.thumbnail,
            r.author == self.author,
            r.video == self.video,
    {
        Embed {
            title: self.title,
            embed_type: self.embed_type,
            description: self.description,
            url: self.url,
            timestamp: self.timestamp,
            color: self.color,
            fields: self.fields,
            footer: self.footer,
            image: self.image,
            thumbnail: self.thumbnail,
            author: self.author,
            video: self.video,
        }
    }
}

/// A name/value pair shown inside an embed.
pub struct EmbedField {
    pub name: String,
    pub value: String,
    pub inline: bool,
}

impl EmbedField {
    pub fn new(name: &str, value: &str, inline: bool) -> (r: Self)
        ensures
            r.name@ == name@,
            r.value@ == value@,
            r.inline == inline,
    {
        Self { name: name.to_owned(), value: value.to_owned(), inline }
    }
}

/// The footer line of an embed.
pub struct EmbedFooter {
    pub text: String,
    pub icon_url: Option<String>,
    pub proxy_icon_url: Option<String>,
}

impl EmbedFooter {
    pub fn new(text: &str, icon_url: Option<String>, proxy_icon_url: Option<String>) -> (r: Self)
        ensures
            r.text@ == text@,
            r.icon_url == icon_url,
            r.proxy_icon_url == proxy_icon_url,
    {
        Self { text: text.to_owned(), icon_url, proxy_icon_url }
    }
}

/// The image of an embed.
pub struct EmbedImage {
    pub url: Option<String>,
    pub proxy_url: Option<String>,
    pub height: Option<i32>,
    pub width: Option<i32>,
}

impl EmbedImage {
    pub fn new(
        url: &str,
        proxy_url: Option<String>,
        height: Option<i32>,
        width: Option<i32>,
    ) -> (r: Self)
        ensures
            r.url matches Some(u) && u@ == url@,
            r.proxy_url == proxy_url,
            r.height == height,
            r.width == width,
    {
        Self { url: Some(url.to_owned()), proxy_url, height, width }
    }
}

/// The thumbnail of an embed.
pub struct EmbedThumbnail {
    pub url: Option<String>,
    pub proxy_url: Option<String>,
    pub height: Option<i32>,
    pub width: Option<i32>,
}

impl EmbedThumbnail {
    pub fn new(
        url: &str,
        proxy_url: Option<String>,
        height: Option<i32>,
        width: Option<i32>,
    ) -> (r: Self)
        ensures
            r.url matches Some(u) && u@ == url@,
            r.proxy_url == proxy_url,
            r.height == height,
            r.width == width,
    {
        Self { url: Some(url.to_owned()), proxy_url, height, width }
    }
}

/// The author line of an embed.
pub struct EmbedAuthor {
    pub name: String,
    pub url: String,
    pub icon_url: Option<String>,
    pub proxy_icon_url: Option<String>,
}

impl EmbedAuthor {
    pub fn new(
        name: &str,
        url: &str,
        icon_url: Option<String>,
        proxy_icon_url: Option<String>,
    ) -> (r: Self)
        ensures
            r.name@ == name@,
            r.url@ == url@,
            r.icon_url == icon_url,
            r.proxy_icon_url == proxy_icon_url,
    {
        Self { name: name.to_owned(), url: url.to_owned(), icon_url, proxy_icon_url }
    }
}

/// The video of an embed.
pub struct EmbedVideo {
    pub url: String,
    pub height: Option<i32>,
    pub width: Option<i32>,
}

impl EmbedVideo {
    pub fn new(url: &str, height: Option<i32>, width: Option<i32>) -> (r: Self)
        ensures
            r.url@ == url@,
            r.height == height,
            r.width == width,
    {
        Self { url: url.to_owned(), height, width }
    }
}

/// A message of the embed-centric send path.
pub struct Message {
    pub content: Option<String>,
    pub username: Option<String>,
    pub avatar_url: Option<String>,
    pub tts: Option<bool>,
    pub embeds: Vec<Embed>,
}

impl Message {
    pub fn new() -> (r: Self)
        ensures
            r.content is None,
            r.username is None,
            r.avatar_url is None,
            r.tts is None,
            r.embeds@ == Seq::<Embed>::empty(),
    {
        Self { content: None, username: None, avatar_url: None, tts: None, embeds: Vec::new() }
    }

    pub fn content(self, content: &str) -> (r: Self)
        ensures
            r.content matches Some(c) && c@ == content@,
            r == (Message { content: r.content, ..self }),
    {
        Self { content: Some(content.to_owned()), ..self }
    }

    pub fn username(self, name: &str) -> (r: Self)
        ensures
            r.username matches Some(u) && u@ == name@,
            r == (Message { username: r.username, ..self }),
    {
        Self { username: Some(name.to_owned()), ..self }
    }

    pub fn avatar_url(self, url: &str) -> (r: Self)
        ensures
            r.avatar_url matches Some(u) && u@ == url@,
            r == (Message { avatar_url: r.avatar_url, ..self }),
    {
        Self { avatar_url: Some(url.to_owned()), ..self }
    }

    pub fn tts(self, tts: bool) -> (r: Self)
        ensures
            r.tts == Some(tts),
            r == (Message { tts: r.tts, ..self }),
    {
        Self { tts: Some(tts), ..self }
    }

    /// Appends one finished embed to the message.
    pub fn embed(self, embed: Embed) -> (r: Self)
        ensures
            r.embeds@ == self.embeds@.push(embed),
            r == (Message { embeds: r.embeds, ..self }),
    {
        let mut embeds = self.embeds;
        embeds.push(embed);
        Self { embeds, ..self }
    }
}

} // verus!
