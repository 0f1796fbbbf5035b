//! Interactive components: action rows and the buttons they group.

use vstd::prelude::*;

use crate::interval::Interval;
use crate::models::BUTTON_COUNT_MAX;

verus! {

/// A horizontal grouping of interactive components attached to a message.
pub struct ActionRow {
    pub component_type: u8,
    pub components: Vec<NonCompositeComponent>,
}

impl ActionRow {
    pub fn new() -> (r: ActionRow)
        ensures
            r.component_type == 1,
            r.components@ == Seq::<NonCompositeComponent>::empty(),
    {
        ActionRow { component_type: 1, components: Vec::new() }
    }

    /// Appends a link button to the row.
    pub fn link_button(self, button: LinkButton) -> (r: Self)
        ensures
            r.components@ == self.components@.push(
                NonCompositeComponent::Button(button.spec_to_button()),
            ),
            r.component_type == self.component_type,
    {
        let mut components = self.components;
        components.push(NonCompositeComponent::Button(button.to_serializable_button()));
        Self { components, ..self }
    }

    /// Appends a regular (non-link) button to the row.
    pub fn regular_button(self, button: RegularButton) -> (r: Self)
        ensures
            r.components@ == self.components@.push(
                NonCompositeComponent::Button(button.spec_to_button()),
            ),
            r.component_type == self.component_type,
    {
        let mut components = self.components;
        components.push(NonCompositeComponent::Button(button.to_serializable_button()));
        Self { components, ..self }
    }

    pub fn button_count_interval() -> (r: Interval)
        ensures
            r.min_allowed == 0 && r.max_allowed == BUTTON_COUNT_MAX,
    {
        Interval::from_min_max(0, BUTTON_COUNT_MAX)
    }
}

/// A component that is not an action row. Ready to be extended with other
/// component kinds.
pub enum NonCompositeComponent {
    Button(Button),
}

/// The button styles of the wire format, including the link style that is
/// reserved for link buttons.
pub enum ButtonStyles {
    Primary,
    Secondary,
    Success,
    Danger,
    Link,
}

/// The styles a regular (non-link) button may carry. The link style has an
/// explicit way of creation via the action row, so it is kept out of this
/// enum to avoid confusion.
pub enum NonLinkButtonStyle {
    Primary,
    Secondary,
    Success,
    Danger,
}

impl NonLinkButtonStyle {
    /// The wire style corresponding to this non-link style.
    pub open spec fn spec_button_style(self) -> ButtonStyles {
        match self {
            NonLinkButtonStyle::Primary => ButtonStyles::Primary,
            NonLinkButtonStyle::Secondary => ButtonStyles::Secondary,
            NonLinkButtonStyle::Success => ButtonStyles::Success,
            NonLinkButtonStyle::Danger => ButtonStyles::Danger,
        }
    }

    pub fn get_button_style(self) -> (r: ButtonStyles)
        ensures
            r == self.spec_button_style(),
    {
        match self {
            NonLinkButtonStyle::Primary => ButtonStyles::Primary,
            NonLinkButtonStyle::Secondary => ButtonStyles::Secondary,
            NonLinkButtonStyle::Success => ButtonStyles::Success,
            NonLinkButtonStyle::Danger => ButtonStyles::Danger,
        }
    }
}

/// A custom emoji shown on a button.
pub struct PartialEmoji {
    pub id: String,
    pub name: String,
    pub animated: Option<bool>,
}

/// The button shape of the wire format, produced from the two user-facing
/// button kinds just before validation and serialization.
pub struct Button {
    pub component_type: i8,
    pub style: Option<ButtonStyles>,
    pub label: Option<String>,
    pub emoji: Option<PartialEmoji>,
    pub custom_id: Option<String>,
    pub url: Option<String>,
    pub disabled: Option<bool>,
}

impl Button {
    pub fn new(
        style: Option<ButtonStyles>,
        label: Option<String>,
        emoji: Option<PartialEmoji>,
        url: Option<String>,
        custom_id: Option<String>,
        disabled: Option<bool>,
    ) -> (r: Self)
        ensures
            r == (Button { component_type: 2 as i8, style, label, emoji, custom_id, url, disabled }),
    {
        Self { component_type: 2, style, label, emoji, url, custom_id, disabled }
    }
}

/// Data holder for the fields shared by link and regular buttons.
pub struct ButtonCommonBase {
    pub label: Option<String>,
    pub emoji: Option<PartialEmoji>,
    pub disabled: Option<bool>,
}

impl ButtonCommonBase {
    pub fn new(label: Option<String>, emoji: Option<PartialEmoji>, disabled: Option<bool>) -> (r:
        Self)
        ensures
            r == (ButtonCommonBase { label, emoji, disabled }),
    {
        ButtonCommonBase { label, emoji, disabled }
    }

    pub fn label(self, label: &str) -> (r: Self)
        ensures
            r.label matches Some(l) && l@ == label@,
            r.emoji == self.emoji,
            r.disabled == self.disabled,
    {
        Self { label: Some(label.to_owned()), ..self }
    }

    pub fn emoji(self, emoji_id: String, name: &str, animated: bool) -> (r: Self)
        ensures
            r.emoji matches Some(e) && e.id == emoji_id && e.name@ == name@ && e.animated == Some(
                animated,
            ),
            r.label == self.label,
            r.disabled == self.disabled,
    {
        Self {
            emoji: Some(PartialEmoji { id: emoji_id, name: name.to_owned(), animated: Some(animated) }),
            ..self
        }
    }

    pub fn disabled(self, disabled: bool) -> (r: Self)
        ensures
            r.disabled == Some(disabled),
            r.label == self.label,
            r.emoji == self.emoji,
    {
        Self { disabled: Some(disabled), ..self }
    }
}

/// A button that opens a url; it carries no custom id.
pub struct LinkButton {
    pub button_base: ButtonCommonBase,
    pub url: Option<String>,
}

impl LinkButton {
    pub fn new() -> (r: Self)
        ensures
            r.button_base.label is None,
            r.button_base.emoji is None,
            r.button_base.disabled is None,
            r.url is None,
    {
        LinkButton { button_base: ButtonCommonBase::new(None, None, None), url: None }
    }

    pub fn url(self, url: &str) -> (r: Self)
        ensures
            r.url matches Some(u) && u@ == url@,
            r.button_base == self.button_base,
    {
        Self { url: Some(url.to_owned()), ..self }
    }

    pub fn label(self, label: &str) -> (r: Self)
        ensures
            r.button_base.label matches Some(l) && l@ == label@,
            r.button_base.emoji == self.button_base.emoji,
            r.button_base.disabled == self.button_base.disabled,
            r.url == self.url,
    {
        Self { button_base: self.button_base.label(label), ..self }
    }

    pub fn emoji(self, emoji_id: &str, name: &str, animated: bool) -> (r: Self)
        ensures
            r.button_base.emoji matches Some(e) && e.id@ == emoji_id@ && e.name@ == name@
                && e.animated == Some(animated),
            r.button_base.label == self.button_base.label,
            r.button_base.disabled == self.button_base.disabled,
            r.url == self.url,
    {
        Self { button_base: self.button_base.emoji(emoji_id.to_owned(), name, animated), ..self }
    }

    pub fn disabled(self, disabled: bool) -> (r: Self)
        ensures
            r.button_base.disabled == Some(disabled),
            r.button_base.label == self.button_base.label,
            r.button_base.emoji == self.button_base.emoji,
            r.url == self.url,
    {
        Self { button_base: self.button_base.disabled(disabled), ..self }
    }

    /// The wire button this link button denotes: link style, no custom id.
    pub open spec fn spec_to_button(self) -> Button {
        Button {
            component_type: 2 as i8,
            style: Some(ButtonStyles::Link),
            label: self.button_base.label,
            emoji: self.button_base.emoji,
            custom_id: None,
            url: self.url,
            disabled: self.button_base.disabled,
        }
    }

    pub fn to_serializable_button(self) -> (r: Button)
        ensures
            r == self.spec_to_button(),
    {
        Button::new(
            Some(ButtonStyles::Link),
            self.button_base.label,
            self.button_base.emoji,
            self.url,
            None,
            self.button_base.disabled,
        )
    }
}

/// An interactive button identified by a custom id.
pub struct RegularButton {
    pub button_base: ButtonCommonBase,
    pub custom_id: Option<String>,
    pub style: Option<NonLinkButtonStyle>,
}

impl RegularButton {
    pub fn new() -> (r: Self)
        ensures
            r.button_base.label is None,
            r.button_base.emoji is None,
            r.button_base.disabled is None,
            r.custom_id is None,
            r.style is None,
    {
        RegularButton {
            button_base: ButtonCommonBase::new(None, None, None),
            custom_id: None,
            style: None,
        }
    }

    pub fn custom_id(self, custom_id: &str) -> (r: Self)
        ensures
            r.custom_id matches Some(c) && c@ == custom_id@,
            r.button_base == self.button_base,
            r.style == self.style,
    {
        Self { custom_id: Some(custom_id.to_owned()), ..self }
    }

    pub fn style(self, style: NonLinkButtonStyle) -> (r: Self)
        ensures
            r.style == Some(style),
            r.button_base == self.button_base,
            r.custom_id == self.custom_id,
    {
        Self { style: Some(style), ..self }
    }

    pub fn label(self, label: &str) -> (r: Self)
        ensures
            r.button_base.label matches Some(l) && l@ == label@,
            r.button_base.emoji == self.button_base.emoji,
            r.button_base.disabled == self.button_base.disabled,
            r.custom_id == self.custom_id,
            r.style == self.style,
    {
        Self { button_base: self.button_base.label(label), ..self }
    }

    pub fn emoji(self, emoji_id: &str, name: &str, animated: bool) -> (r: Self)
        ensures
            r.button_base.emoji matches Some(e) && e.id@ == emoji_id@ && e.name@ == name@
                && e.animated == Some(animated),
            r.button_base.label == self.button_base.label,
            r.button_base.disabled == self.button_base.disabled,
            r.custom_id == self.custom_id,
            r.style == self.style,
    {
        Self { button_base: self.button_base.emoji(emoji_id.to_owned(), name, animated), ..self }
    }

    pub fn disabled(self, disabled: bool) -> (r: Self)
        ensures
            r.button_base.disabled == Some(disabled),
            r.button_base.label == self.button_base.label,
            r.button_base.emoji == self.button_base.emoji,
            r.custom_id == self.custom_id,
            r.style == self.style,
    {
        Self { button_base: self.button_base.disabled(disabled), ..self }
    }

    /// The wire button this regular button denotes: its style resolved to the
    /// wire style, no url.
    pub open spec fn spec_to_button(self) -> Button {
        Button {
            component_type: 2 as i8,
            style: match self.style {
                Some(s) => Some(s.spec_button_style()),
                None => None,
            },
            label: self.button_base.label,
            emoji: self.button_base.emoji,
            custom_id: self.custom_id,
            url: None,
            disabled: self.button_base.disabled,
        }
    }

    pub fn to_serializable_button(self) -> (r: Button)
        ensures
            r == self.spec_to_button(),
    {
        let style = match self.style {
            Some(s) => Some(s.get_button_style()),
            None => None,
        };
        Button::new(
            style,
            self.button_base.label,
            self.button_base.emoji,
            None,
            self.custom_id,
            self.button_base.disabled,
        )
    }
}

} // verus!
