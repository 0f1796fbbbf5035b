//! The message entity tree: plain data holders assembled by a fluent builder
//! API. The entities carry no validation logic themselves; the checker walks
//! them read-only.

use vstd::prelude::*;

use crate::components::ActionRow;
use crate::interval::Interval;

verus! {

/// Maximum number of action rows attached to one message.
pub const ACTION_ROW_COUNT_MAX: usize = 5;

/// Maximum length of a button label, in characters.
pub const LABEL_LEN_MAX: usize = 80;

/// Minimum length of a button custom id, in characters.
pub const CUSTOM_ID_LEN_MIN: usize = 1;

/// Maximum length of a button custom id, in characters.
pub const CUSTOM_ID_LEN_MAX: usize = 100;

/// Maximum combined character count of all embed text in one message.
pub const EMBED_TOTAL_TEXT_LEN_MAX: usize = 6000;

/// Maximum length of an embed title, in characters.
pub const TITLE_LEN_MAX: usize = 256;

/// Maximum length of an embed description, in characters.
pub const DESCRIPTION_LEN_MAX: usize = 4096;

/// Maximum number of fields in one embed.
pub const FIELDS_LEN_MAX: usize = 25;

/// Maximum length of an embed field name, in characters.
pub const FIELD_NAME_LEN_MAX: usize = 256;

/// Maximum length of an embed field value, in characters.
pub const FIELD_VALUE_LEN_MAX: usize = 1024;

/// Maximum length of an embed footer text, in characters.
pub const FOOTER_TEXT_LEN_MAX: usize = 2048;

/// Maximum length of an embed author name, in characters.
pub const AUTHOR_NAME_LEN_MAX: usize = 256;

/// Maximum number of buttons in one action row.
pub const BUTTON_COUNT_MAX: usize = 5;

/// The webhook description returned by the remote endpoint, as plain data.
pub struct Webhook {
    pub id: String,
    pub webhook_type: i8,
    pub guild_id: String,
    pub channel_id: String,
    pub name: Option<String>,
    pub avatar: Option<String>,
    pub token: String,
    pub application_id: Option<String>,
}

/// A message to be validated and sent through a webhook.
pub struct Message {
    pub content: Option<String>,
    pub username: Option<String>,
    pub avatar_url: Option<String>,
    pub tts: bool,
    pub embeds: Vec<Embed>,
    pub allow_mentions: Option<AllowedMentions>,
    pub action_rows: Vec<ActionRow>,
}

impl Message {
    pub fn new() -> (r: Self)
        ensures
            r.content is None,
            r.username is None,
            r.avatar_url is None,
            r.tts == false,
            r.embeds@ == Seq::<Embed>::empty(),
            r.allow_mentions is None,
            r.action_rows@ == Seq::<ActionRow>::empty(),
    {
        Self {
            content: None,
            username: None,
            avatar_url: None,
            tts: false,
            embeds: Vec::new(),
            allow_mentions: None,
            action_rows: Vec::new(),
        }
    }

    pub fn content(self, content: &str) -> (r: Self)
        ensures
            r.content matches Some(c) && c@ == content@,
            r.username == self.username,
            r.avatar_url == self.avatar_url,
            r.tts == self.tts,
            r.embeds == self.embeds,
            r.allow_mentions == self.allow_mentions,
            r.action_rows == self.action_rows,
    {
        Self { content: Some(content.to_owned()), ..self }
    }

    pub fn username(self, username: &str) -> (r: Self)
        ensures
            r.username matches Some(u) && u@ == username@,
            r.content == self.content,
            r.avatar_url == self.avatar_url,
            r.tts == self.tts,
            r.embeds == self.embeds,
            r.allow_mentions == self.allow_mentions,
            r.action_rows == self.action_rows,
    {
        Self { username: Some(username.to_owned()), ..self }
    }

    pub fn avatar_url(self, avatar_url: &str) -> (r: Self)
        ensures
            r.avatar_url matches Some(u) && u@ == avatar_url@,
            r.content == self.content,
            r.username == self.username,
            r.tts == self.tts,
            r.embeds == self.embeds,
            r.allow_mentions == self.allow_mentions,
            r.action_rows == self.action_rows,
    {
        Self { avatar_url: Some(avatar_url.to_owned()), ..self }
    }

    pub fn tts(self, tts: bool) -> (r: Self)
        ensures
            r.tts == tts,
            r.content == self.content,
            r.username == self.username,
            r.avatar_url == self.avatar_url,
            r.embeds == self.embeds,
            r.allow_mentions == self.allow_mentions,
            r.action_rows == self.action_rows,
    {
        Self { tts, ..self }
    }

    /// Appends one embed to the message.
    pub fn embed(self, embed: Embed) -> (r: Self)
        ensures
            r.embeds@ == self.embeds@.push(embed),
            r.content == self.content,
            r.username == self.username,
            r.avatar_url == self.avatar_url,
            r.tts == self.tts,
            r.allow_mentions == self.allow_mentions,
            r.action_rows == self.action_rows,
    {
        let mut embeds = self.embeds;
        embeds.push(embed);
        Self { embeds, ..self }
    }

    /// Appends one action row to the message.
    pub fn action_row(self, row: ActionRow) -> (r: Self)
        ensures
            r.action_rows@ == self.action_rows@.push(row),
            r.content == self.content,
            r.username == self.username,
            r.avatar_url == self.avatar_url,
            r.tts == self.tts,
            r.embeds == self.embeds,
            r.allow_mentions == self.allow_mentions,
    {
        let mut action_rows = self.action_rows;
        action_rows.push(row);
        Self { action_rows, ..self }
    }

    pub fn allow_mentions(
        self,
        parse: Option<Vec<AllowedMention>>,
        roles: Option<Vec<String>>,
        users: Option<Vec<String>>,
        replied_user: bool,
    ) -> (r: Self)
        ensures
            r.allow_mentions matches Some(am) && am.parse matches Some(p) && p@.map_values(
                |s: String| s@,
            ) == spec_mention_names(parse) && am.roles == roles && am.users == users
                && am.replied_user == replied_user,
            r.content == self.content,
            r.username == self.username,
            r.avatar_url == self.avatar_url,
            r.tts == self.tts,
            r.embeds == self.embeds,
            r.action_rows == self.action_rows,
    {
        Self { allow_mentions: Some(AllowedMentions::new(parse, roles, users, replied_user)), ..self }
    }

    pub fn action_row_count_interval() -> (r: Interval)
        ensures
            r.min_allowed == 0 && r.max_allowed == ACTION_ROW_COUNT_MAX,
    {
        Interval::from_min_max(0, ACTION_ROW_COUNT_MAX)
    }

    pub fn label_len_interval() -> (r: Interval)
        ensures
            r.min_allowed == 0 && r.max_allowed == LABEL_LEN_MAX,
    {
        Interval::from_min_max(0, LABEL_LEN_MAX)
    }

    pub fn custom_id_len_interval() -> (r: Interval)
        ensures
            r.min_allowed == CUSTOM_ID_LEN_MIN && r.max_allowed == CUSTOM_ID_LEN_MAX,
    {
        Interval::from_min_max(CUSTOM_ID_LEN_MIN, CUSTOM_ID_LEN_MAX)
    }

    /// The combined sum of characters in all title, description, field name,
    /// field value, footer text, and author name fields across all embeds
    /// attached to a message must not exceed this interval.
    pub fn embed_total_text_len_interval() -> (r: Interval)
        ensures
            r.min_allowed == 0 && r.max_allowed == EMBED_TOTAL_TEXT_LEN_MAX,
    {
        Interval::from_min_max(0, EMBED_TOTAL_TEXT_LEN_MAX)
    }
}

/// A rich-content card attached to a message.
pub struct Embed {
    pub title: Option<String>,
    pub embed_type: String,
    pub description: Option<String>,
    pub url: Option<String>,
    pub timestamp: Option<String>,
    pub color: Option<String>,
    pub footer: Option<EmbedFooter>,
    pub image: Option<EmbedImage>,
    pub video: Option<EmbedVideo>,
    pub thumbnail: Option<EmbedThumbnail>,
    pub provider: Option<EmbedProvider>,
    pub author: Option<EmbedAuthor>,
    pub fields: Vec<EmbedField>,
}

impl Embed {
    pub fn new() -> (r: Self)
        ensures
            r.title is None,
            r.embed_type@ == "rich"@,
            r.description is None,
            r.url is None,
            r.timestamp is None,
            r.color is None,
            r.footer is None,
            r.image is None,
            r.video is None,
            r.thumbnail is None,
            r.provider is None,
            r.author is None,
            r.fields@ == Seq::<EmbedField>::empty(),
    {
        Self {
            title: None,
            embed_type: String::from_str("rich"),
            description: None,
            url: None,
            timestamp: None,
            color: None,
            footer: None,
            image: None,
            video: None,
            thumbnail: None,
            provider: None,
            author: None,
            fields: Vec::new(),
        }
    }

    pub fn title(self, title: &str) -> (r: Self)
        ensures
            r.title matches Some(t) && t@ == title@,
            r == (Embed { title: r.title, ..self }),
    {
        Self { title: Some(title.to_owned()), ..self }
    }

    pub fn description(self, description: &str) -> (r: Self)
        ensures
            r.description matches Some(d) && d@ == description@,
            r == (Embed { description: r.description, ..self }),
    {
        Self { description: Some(description.to_owned()), ..self }
    }

    pub fn url(self, url: &str) -> (r: Self)
        ensures
            r.url matches Some(u) && u@ == url@,
            r == (Embed { url: r.url, ..self }),
    {
        Self { url: Some(url.to_owned()), ..self }
    }

    pub fn timestamp(self, timestamp: &str) -> (r: Self)
        ensures
            r.timestamp matches Some(t) && t@ == timestamp@,
            r == (Embed { timestamp: r.timestamp, ..self }),
    {
        Self { timestamp: Some(timestamp.to_owned()), ..self }
    }

    pub fn color(self, color: &str) -> (r: Self)
        ensures
            r.color matches Some(c) && c@ == color@,
            r == (Embed { color: r.color, ..self }),
    {
        Self { color: Some(color.to_owned()), ..self }
    }

    pub fn footer(self, text: &str, icon_url: Option<String>) -> (r: Self)
        ensures
            r.footer matches Some(f) && f.text@ == text@ && f.icon_url == icon_url,
            r == (Embed { footer: r.footer, ..self }),
    {
        Self { footer: Some(EmbedFooter::new(text, icon_url)), ..self }
    }

    pub fn image(self, url: &str) -> (r: Self)
        ensures
            r.image matches Some(i) && i.url@ == url@,
            r == (Embed { image: r.image, ..self }),
    {
        Self { image: Some(EmbedImage::new(url)), ..self }
    }

    pub fn video(self, url: &str) -> (r: Self)
        ensures
            r.video matches Some(v) && v.url@ == url@,
            r == (Embed { video: r.video, ..self }),
    {
        Self { video: Some(EmbedVideo::new(url)), ..self }
    }

    pub fn thumbnail(self, url: &str) -> (r: Self)
        ensures
            r.thumbnail matches Some(t) && t.url@ == url@,
            r == (Embed { thumbnail: r.thumbnail, ..self }),
    {
        Self { thumbnail: Some(EmbedThumbnail::new(url)), ..self }
    }

    pub fn provider(self, name: &str, url: &str) -> (r: Self)
        ensures
            r.provider matches Some(p) && p.name@ == name@ && p.url@ == url@,
            r == (Embed { provider: r.provider, ..self }),
    {
        Self { provider: Some(EmbedProvider::new(name, url)), ..self }
    }

    pub fn author(self, name: &str, url: Option<String>, icon_url: Option<String>) -> (r: Self)
        ensures
            r.author matches Some(a) && a.name@ == name@ && a.url == url && a.icon_url == icon_url,
            r == (Embed { author: r.author, ..self }),
    {
        Self { author: Some(EmbedAuthor::new(name, url, icon_url)), ..self }
    }

    /// Appends one field. The field count limit is enforced by the checker,
    /// not here.
    pub fn field(self, name: &str, value: &str, inline: bool) -> (r: Self)
        ensures
            r.fields@ == self.fields@.push(r.fields@.last()),
            r.fields@.last().name@ == name@,
            r.fields@.last().value@ == value@,
            r.fields@.last().inline == inline,
            r == (Embed { fields: r.fields, ..self }),
    {
        let mut fields = self.fields;
        fields.push(EmbedField::new(name, value, inline));
        Self { fields, ..self }
    }

    pub fn title_len_interval() -> (r: Interval)
        ensures
            r.min_allowed == 0 && r.max_allowed == TITLE_LEN_MAX,
    {
        Interval::from_min_max(0, TITLE_LEN_MAX)
    }

    pub fn description_len_interval() -> (r: Interval)
        ensures
            r.min_allowed == 0 && r.max_allowed == DESCRIPTION_LEN_MAX,
    {
        Interval::from_min_max(0, DESCRIPTION_LEN_MAX)
    }

    pub fn fields_len_interval() -> (r: Interval)
        ensures
            r.min_allowed == 0 && r.max_allowed == FIELDS_LEN_MAX,
    {
        Interval::from_min_max(0, FIELDS_LEN_MAX)
    }
}

/// A name/value pair shown inside an embed.
pub struct EmbedField {
    pub name: String,
    pub value: String,
    pub inline: bool,
}

impl EmbedField {
    pub fn new(name: &str, value: &str, inline: bool) -> (r: Self)
        ensures
            r.name@ == name@,
            r.value@ == value@,
            r.inline == inline,
    {
        Self { name: name.to_owned(), value: value.to_owned(), inline }
    }

    pub fn name_len_interval() -> (r: Interval)
        ensures
            r.min_allowed == 0 && r.max_allowed == FIELD_NAME_LEN_MAX,
    {
        Interval::from_min_max(0, FIELD_NAME_LEN_MAX)
    }

    pub fn value_len_interval() -> (r: Interval)
        ensures
            r.min_allowed == 0 && r.max_allowed == FIELD_VALUE_LEN_MAX,
    {
        Interval::from_min_max(0, FIELD_VALUE_LEN_MAX)
    }
}

/// The footer line of an embed.
pub struct EmbedFooter {
    pub text: String,
    pub icon_url: Option<String>,
}

impl EmbedFooter {
    pub fn new(text: &str, icon_url: Option<String>) -> (r: Self)
        ensures
            r.text@ == text@,
            r.icon_url == icon_url,
    {
        Self { text: text.to_owned(), icon_url }
    }

    pub fn text_len_interval() -> (r: Interval)
        ensures
            r.min_allowed == 0 && r.max_allowed == FOOTER_TEXT_LEN_MAX,
    {
        Interval::from_min_max(0, FOOTER_TEXT_LEN_MAX)
    }
}

pub type EmbedImage = EmbedUrlSource;

pub type EmbedThumbnail = EmbedUrlSource;

pub type EmbedVideo = EmbedUrlSource;

/// A media element of an embed, identified by its source url.
pub struct EmbedUrlSource {
    pub url: String,
}

impl EmbedUrlSource {
    pub fn new(url: &str) -> (r: Self)
        ensures
            r.url@ == url@,
    {
        Self { url: url.to_owned() }
    }
}

/// The provider line of an embed.
pub struct EmbedProvider {
    pub name: String,
    pub url: String,
}

impl EmbedProvider {
    pub fn new(name: &str, url: &str) -> (r: Self)
        ensures
            r.name@ == name@,
            r.url@ == url@,
    {
        Self { name: name.to_owned(), url: url.to_owned() }
    }
}

/// The author line of an embed.
pub struct EmbedAuthor {
    pub name: String,
    pub url: Option<String>,
    pub icon_url: Option<String>,
}

impl EmbedAuthor {
    pub fn new(name: &str, url: Option<String>, icon_url: Option<String>) -> (r: Self)
        ensures
            r.name@ == name@,
            r.url == url,
            r.icon_url == icon_url,
    {
        Self { name: name.to_owned(), url, icon_url }
    }

    pub fn name_len_interval() -> (r: Interval)
        ensures
            r.min_allowed == 0 && r.max_allowed == AUTHOR_NAME_LEN_MAX,
    {
        Interval::from_min_max(0, AUTHOR_NAME_LEN_MAX)
    }
}

/// The mention classes a message may be allowed to trigger.
pub enum AllowedMention {
    RoleMention,
    UserMention,
    EveryoneMention,
}

/// The wire name of a mention class.
pub open spec fn spec_mention_name(m: AllowedMention) -> Seq<char> {
    match m {
        AllowedMention::RoleMention => "roles"@,
        AllowedMention::UserMention => "users"@,
        AllowedMention::EveryoneMention => "everyone"@,
    }
}

pub fn resolve_allowed_mention_name(allowed_mention: AllowedMention) -> (r: String)
    ensures
        r@ == spec_mention_name(allowed_mention),
{
    match allowed_mention {
        AllowedMention::RoleMention => String::from_str("roles"),
        AllowedMention::UserMention => String::from_str("users"),
        AllowedMention::EveryoneMention => String::from_str("everyone"),
    }
}

/// Which mentions the message is allowed to trigger.
pub struct AllowedMentions {
    pub parse: Option<Vec<String>>,
    pub roles: Option<Vec<String>>,
    pub users: Option<Vec<String>>,
    pub replied_user: bool,
}

/// The wire names of the given mention classes, in order; empty when no
/// classes were given.
pub open spec fn spec_mention_names(parse: Option<Vec<AllowedMention>>) -> Seq<Seq<char>> {
    match parse {
        Some(v) => v@.map_values(|m: AllowedMention| spec_mention_name(m)),
        None => Seq::<Seq<char>>::empty(),
    }
}

impl AllowedMentions {
    pub fn new(
        parse: Option<Vec<AllowedMention>>,
        roles: Option<Vec<String>>,
        users: Option<Vec<String>>,
        replied_user: bool,
    ) -> (r: Self)
        ensures
            r.parse matches Some(p) && p@.map_values(|s: String| s@) == spec_mention_names(parse),
            r.roles == roles,
            r.users == users,
            r.replied_user == replied_user,
    {
        let mut parse_strings: Vec<String> = Vec::new();
        match parse {
            Some(p) => {
                let mut i: usize = 0;
                let pl = p.len();
                while i < pl
                    invariant
                        i <= pl,
                        pl == p@.len(),
                        parse_strings@.len() == i,
                        forall|j: int|
                            0 <= j < i ==> #[trigger] parse_strings@[j]@ == spec_mention_name(
                                p@[j],
                            ),
                    decreases pl - i,
                {
                    let name = match &p[i] {
                        AllowedMention::RoleMention => String::from_str("roles"),
                        AllowedMention::UserMention => String::from_str("users"),
                        AllowedMention::EveryoneMention => String::from_str("everyone"),
                    };
                    parse_strings.push(name);
                    i = i + 1;
                }
                proof {
                    assert(parse_strings@.map_values(|s: String| s@) =~= p@.map_values(
                        |m: AllowedMention| spec_mention_name(m),
                    ));
                }
                Self { parse: Some(parse_strings), roles, users, replied_user }
            },
            None => Self { parse: Some(parse_strings), roles, users, replied_user },
        }
    }
}

} // verus!
