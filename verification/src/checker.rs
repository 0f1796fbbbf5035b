//! The compatibility checker: a per-entity-type validation operation that
//! consults the context, checks entity-local constraints, and recurses into
//! children. The walk fails fast on the first invalid entity in document
//! order: embeds before action rows; within an embed, field count, title and
//! description before author and footer before fields; within an action row,
//! components in insertion order.

use vstd::prelude::*;

use crate::components::{ActionRow, Button, ButtonStyles, NonCompositeComponent};
use crate::context::{
    spec_register_action_row, spec_register_button, spec_register_embed, MessageContext,
    MessageContextView,
};
use crate::error::{result_view, ValidationError, ValidationErrorView};
use crate::interval::{interval_check, LimitKind};
use crate::models::{
    Embed, EmbedAuthor, EmbedField, EmbedFooter, Message, ACTION_ROW_COUNT_MAX,
    DESCRIPTION_LEN_MAX, FIELDS_LEN_MAX, LABEL_LEN_MAX, TITLE_LEN_MAX,
};

verus! {

/// The state a fresh validation pass starts from.
pub open spec fn spec_empty_context() -> MessageContextView {
    MessageContextView {
        custom_ids: Set::<Seq<char>>::empty(),
        embeds_character_counter: 0,
        button_count_in_action_row: 0,
    }
}

/// The outcome of checking one embed field: its value length, then its name
/// length.
pub open spec fn spec_check_field(f: EmbedField) -> Result<(), ValidationErrorView> {
    if f.value@.len() > crate::models::FIELD_VALUE_LEN_MAX {
        Err(
            ValidationErrorView::LengthExceeded {
                field_name: "Embed field value length"@,
                value: f.value@.len(),
                min_allowed: 0,
                max_allowed: crate::models::FIELD_VALUE_LEN_MAX as nat,
            },
        )
    } else if f.name@.len() > crate::models::FIELD_NAME_LEN_MAX {
        Err(
            ValidationErrorView::LengthExceeded {
                field_name: "Embed field name length"@,
                value: f.name@.len(),
                min_allowed: 0,
                max_allowed: crate::models::FIELD_NAME_LEN_MAX as nat,
            },
        )
    } else {
        Ok(())
    }
}

/// The outcome of checking an embed author: its name length.
pub open spec fn spec_check_author(a: EmbedAuthor) -> Result<(), ValidationErrorView> {
    if a.name@.len() > crate::models::AUTHOR_NAME_LEN_MAX {
        Err(
            ValidationErrorView::LengthExceeded {
                field_name: "Embed author name length"@,
                value: a.name@.len(),
                min_allowed: 0,
                max_allowed: crate::models::AUTHOR_NAME_LEN_MAX as nat,
            },
        )
    } else {
        Ok(())
    }
}

/// The outcome of checking an embed footer: its text length.
pub open spec fn spec_check_footer(f: EmbedFooter) -> Result<(), ValidationErrorView> {
    if f.text@.len() > crate::models::FOOTER_TEXT_LEN_MAX {
        Err(
            ValidationErrorView::LengthExceeded {
                field_name: "Embed footer text length"@,
                value: f.text@.len(),
                min_allowed: 0,
                max_allowed: crate::models::FOOTER_TEXT_LEN_MAX as nat,
            },
        )
    } else {
        Ok(())
    }
}

/// The outcome of checking an optional embed title: its length, when present.
pub open spec fn spec_check_title(title: Option<String>) -> Result<(), ValidationErrorView> {
    match title {
        Some(t) => if t@.len() > TITLE_LEN_MAX {
            Err(
                ValidationErrorView::LengthExceeded {
                    field_name: "Embed title length"@,
                    value: t@.len(),
                    min_allowed: 0,
                    max_allowed: TITLE_LEN_MAX as nat,
                },
            )
        } else {
            Ok(())
        },
        None => Ok(()),
    }
}

/// The outcome of checking an optional embed description: its length, when
/// present.
pub open spec fn spec_check_description(description: Option<String>) -> Result<
    (),
    ValidationErrorView,
> {
    match description {
        Some(d) => if d@.len() > DESCRIPTION_LEN_MAX {
            Err(
                ValidationErrorView::LengthExceeded {
                    field_name: "Embed description length"@,
                    value: d@.len(),
                    min_allowed: 0,
                    max_allowed: DESCRIPTION_LEN_MAX as nat,
                },
            )
        } else {
            Ok(())
        },
        None => Ok(()),
    }
}

/// The outcome of checking an optional embed author.
pub open spec fn spec_check_opt_author(author: Option<EmbedAuthor>) -> Result<
    (),
    ValidationErrorView,
> {
    match author {
        Some(a) => spec_check_author(a),
        None => Ok(()),
    }
}

/// The outcome of checking an optional embed footer.
pub open spec fn spec_check_opt_footer(footer: Option<EmbedFooter>) -> Result<
    (),
    ValidationErrorView,
> {
    match footer {
        Some(f) => spec_check_footer(f),
        None => Ok(()),
    }
}

/// The outcome of checking an optional button label: its length, when
/// present.
pub open spec fn spec_check_label(label: Option<String>) -> Result<(), ValidationErrorView> {
    match label {
        Some(l) => if l@.len() > LABEL_LEN_MAX {
            Err(
                ValidationErrorView::LengthExceeded {
                    field_name: "Label length"@,
                    value: l@.len(),
                    min_allowed: 0,
                    max_allowed: LABEL_LEN_MAX as nat,
                },
            )
        } else {
            Ok(())
        },
        None => Ok(()),
    }
}

/// The first failure among the fields from position `i` on, in order.
pub open spec fn spec_check_fields_from(fields: Seq<EmbedField>, i: int) -> Result<
    (),
    ValidationErrorView,
>
    decreases fields.len() - i,
{
    if i < 0 || i >= fields.len() {
        Ok(())
    } else {
        match spec_check_field(fields[i]) {
            Err(e) => Err(e),
            Ok(()) => spec_check_fields_from(fields, i + 1),
        }
    }
}

/// The outcome of checking one embed: its characters are registered first (so
/// accounting happens even if the embed is otherwise invalid), then field
/// count, title length, description length, author, footer, and the fields
/// in order.
pub open spec fn spec_check_embed(ctx: MessageContextView, e: Embed) -> (
    MessageContextView,
    Result<(), ValidationErrorView>,
) {
    let (c1, r1) = spec_register_embed(ctx, e);
    if r1 is Err {
        (c1, r1)
    } else if e.fields@.len() > FIELDS_LEN_MAX {
        (
            c1,
            Err(
                ValidationErrorView::LimitExceeded {
                    field_name: "Field count"@,
                    value: e.fields@.len(),
                    min_allowed: 0,
                    max_allowed: FIELDS_LEN_MAX as nat,
                },
            ),
        )
    } else if spec_check_title(e.title) is Err {
        (c1, spec_check_title(e.title))
    } else if spec_check_description(e.description) is Err {
        (c1, spec_check_description(e.description))
    } else if spec_check_opt_author(e.author) is Err {
        (c1, spec_check_opt_author(e.author))
    } else if spec_check_opt_footer(e.footer) is Err {
        (c1, spec_check_opt_footer(e.footer))
    } else {
        (c1, spec_check_fields_from(e.fields@, 0))
    }
}

/// The outcome of checking one button: label length first, then the style
/// branch. A button without a style is rejected; a link button needs a url
/// and registers nothing; any other style needs a custom id, which is
/// registered for uniqueness and the per-row count.
pub open spec fn spec_check_button(ctx: MessageContextView, b: Button) -> (
    MessageContextView,
    Result<(), ValidationErrorView>,
) {
    if spec_check_label(b.label) is Err {
        (ctx, spec_check_label(b.label))
    } else {
        match b.style {
            None => (ctx, Err(ValidationErrorView::MissingRequiredField { field_name: "style"@ })),
            Some(ButtonStyles::Link) => {
                if b.url is None {
                    (ctx, Err(ValidationErrorView::MissingRequiredField { field_name: "url"@ }))
                } else {
                    (ctx, Ok(()))
                }
            },
            Some(_) => {
                match b.custom_id {
                    Some(id) => spec_register_button(ctx, id@),
                    None => (
                        ctx,
                        Err(
                            ValidationErrorView::MissingRequiredField {
                                field_name: "custom id"@,
                            },
                        ),
                    ),
                }
            },
        }
    }
}

/// The outcome of checking one component of an action row.
pub open spec fn spec_check_component(ctx: MessageContextView, c: NonCompositeComponent) -> (
    MessageContextView,
    Result<(), ValidationErrorView>,
) {
    match c {
        NonCompositeComponent::Button(b) => spec_check_button(ctx, b),
    }
}

/// The context and first failure after checking the components from position
/// `i` on, in order, stopping at the first failure.
pub open spec fn spec_check_components_from(
    ctx: MessageContextView,
    comps: Seq<NonCompositeComponent>,
    i: int,
) -> (MessageContextView, Result<(), ValidationErrorView>)
    decreases comps.len() - i,
{
    if i < 0 || i >= comps.len() {
        (ctx, Ok(()))
    } else {
        let (c1, r1) = spec_check_component(ctx, comps[i]);
        if r1 is Err {
            (c1, r1)
        } else {
            spec_check_components_from(c1, comps, i + 1)
        }
    }
}

/// The outcome of checking one action row: the per-row counter is reset, an
/// empty row is rejected, and otherwise the components are checked in order.
pub open spec fn spec_check_row(ctx: MessageContextView, row: ActionRow) -> (
    MessageContextView,
    Result<(), ValidationErrorView>,
) {
    let c1 = spec_register_action_row(ctx);
    if row.components@.len() == 0 {
        (c1, Err(ValidationErrorView::EmptyComposite { composite_name: "action row"@ }))
    } else {
        spec_check_components_from(c1, row.components@, 0)
    }
}

/// The context and first failure after checking the embeds from position `i`
/// on, in order, stopping at the first failure.
pub open spec fn spec_check_embeds_from(ctx: MessageContextView, embeds: Seq<Embed>, i: int) -> (
    MessageContextView,
    Result<(), ValidationErrorView>,
)
    decreases embeds.len() - i,
{
    if i < 0 || i >= embeds.len() {
        (ctx, Ok(()))
    } else {
        let (c1, r1) = spec_check_embed(ctx, embeds[i]);
        if r1 is Err {
            (c1, r1)
        } else {
            spec_check_embeds_from(c1, embeds, i + 1)
        }
    }
}

/// The context and first failure after checking the action rows from
/// position `i` on, in order, stopping at the first failure.
pub open spec fn spec_check_rows_from(ctx: MessageContextView, rows: Seq<ActionRow>, i: int) -> (
    MessageContextView,
    Result<(), ValidationErrorView>,
)
    decreases rows.len() - i,
{
    if i < 0 || i >= rows.len() {
        (ctx, Ok(()))
    } else {
        let (c1, r1) = spec_check_row(ctx, rows[i]);
        if r1 is Err {
            (c1, r1)
        } else {
            spec_check_rows_from(c1, rows, i + 1)
        }
    }
}

/// The outcome of checking a whole message: the action row count is checked
/// first, before descending; then every embed in order; then every action
/// row in order; stopping at the first failure.
pub open spec fn spec_check_message(ctx: MessageContextView, m: Message) -> (
    MessageContextView,
    Result<(), ValidationErrorView>,
) {
    if m.action_rows@.len() > ACTION_ROW_COUNT_MAX {
        (
            ctx,
            Err(
                ValidationErrorView::LimitExceeded {
                    field_name: "Action row count"@,
                    value: m.action_rows@.len(),
                    min_allowed: 0,
                    max_allowed: ACTION_ROW_COUNT_MAX as nat,
                },
            ),
        )
    } else {
        let (c1, r1) = spec_check_embeds_from(ctx, m.embeds@, 0);
        if r1 is Err {
            (c1, r1)
        } else {
            spec_check_rows_from(c1, m.action_rows@, 0)
        }
    }
}

/// The verdict of one full validation pass over `m`, started from a fresh
/// context.
pub open spec fn spec_validate(m: Message) -> Result<(), ValidationErrorView> {
    spec_check_message(spec_empty_context(), m).1
}

impl EmbedField {
    /// Checks this field's value length, then its name length.
    pub fn check_compatibility(&self, context: &mut MessageContext) -> (r: Result<
        (),
        ValidationError,
    >)
        ensures
            *final(context) == *old(context),
            result_view(r) == spec_check_field(*self),
    {
        match interval_check(
            &Self::value_len_interval(),
            self.value.as_str().unicode_len(),
            "Embed field value length",
            LimitKind::Length,
        ) {
            Err(e) => Err(e),
            Ok(()) => interval_check(
                &Self::name_len_interval(),
                self.name.as_str().unicode_len(),
                "Embed field name length",
                LimitKind::Length,
            ),
        }
    }
}

impl EmbedAuthor {
    /// Checks this author's name length.
    pub fn check_compatibility(&self, context: &mut MessageContext) -> (r: Result<
        (),
        ValidationError,
    >)
        ensures
            *final(context) == *old(context),
            result_view(r) == spec_check_author(*self),
    {
        interval_check(
            &Self::name_len_interval(),
            self.name.as_str().unicode_len(),
            "Embed author name length",
            LimitKind::Length,
        )
    }
}

impl EmbedFooter {
    /// Checks this footer's text length.
    pub fn check_compatibility(&self, context: &mut MessageContext) -> (r: Result<
        (),
        ValidationError,
    >)
        ensures
            *final(context) == *old(context),
            result_view(r) == spec_check_footer(*self),
    {
        interval_check(
            &Self::text_len_interval(),
            self.text.as_str().unicode_len(),
            "Embed footer text length",
            LimitKind::Length,
        )
    }
}

impl Embed {
    /// Checks this embed: registers its character contribution, then checks
    /// field count, title, description, author, footer, and every field in
    /// order.
    pub fn check_compatibility(&self, context: &mut MessageContext) -> (r: Result<
        (),
        ValidationError,
    >)
        ensures
            final(context)@ == spec_check_embed(old(context)@, *self).0,
            result_view(r) == spec_check_embed(old(context)@, *self).1,
    {
        match context.register_embed(self) {
            Err(e) => {
                return Err(e);
            },
            Ok(()) => {},
        }
        match interval_check(
            &Self::fields_len_interval(),
            self.fields.len(),
            "Field count",
            LimitKind::Count,
        ) {
            Err(e) => {
                return Err(e);
            },
            Ok(()) => {},
        }
        match &self.title {
            Some(t) => {
                match interval_check(
                    &Self::title_len_interval(),
                    t.as_str().unicode_len(),
                    "Embed title length",
                    LimitKind::Length,
                ) {
                    Err(e) => {
                        return Err(e);
                    },
                    Ok(()) => {},
                }
            },
            None => {},
        }
        match &self.description {
            Some(d) => {
                match interval_check(
                    &Self::description_len_interval(),
                    d.as_str().unicode_len(),
                    "Embed description length",
                    LimitKind::Length,
                ) {
                    Err(e) => {
                        return Err(e);
                    },
                    Ok(()) => {},
                }
            },
            None => {},
        }
        match &self.author {
            Some(a) => {
                match a.check_compatibility(context) {
                    Err(e) => {
                        return Err(e);
                    },
                    Ok(()) => {},
                }
            },
            None => {},
        }
        match &self.footer {
            Some(f) => {
                match f.check_compatibility(context) {
                    Err(e) => {
                        return Err(e);
                    },
                    Ok(()) => {},
                }
            },
            None => {},
        }
        let fl = self.fields.len();
        let mut i: usize = 0;
        while i < fl
            invariant
                i <= fl,
                fl == self.fields@.len(),
                context@ == spec_check_embed(old(context)@, *self).0,
                spec_check_embed(old(context)@, *self).1 == spec_check_fields_from(
                    self.fields@,
                    i as int,
                ),
            decreases fl - i,
        {
            match self.fields[i].check_compatibility(context) {
                Err(e) => {
                    return Err(e);
                },
                Ok(()) => {},
            }
            i = i + 1;
        }
        Ok(())
    }
}

impl Button {
    /// Checks this button: label length first, then the style branch.
    pub fn check_compatibility(&self, context: &mut MessageContext) -> (r: Result<
        (),
        ValidationError,
    >)
        ensures
            final(context)@ == spec_check_button(old(context)@, *self).0,
            result_view(r) == spec_check_button(old(context)@, *self).1,
    {
        match &self.label {
            Some(label) => {
                match interval_check(
                    &Message::label_len_interval(),
                    label.as_str().unicode_len(),
                    "Label length",
                    LimitKind::Length,
                ) {
                    Err(e) => {
                        return Err(e);
                    },
                    Ok(()) => {},
                }
            },
            None => {},
        }
        match &self.style {
            None => Err(
                ValidationError::MissingRequiredField { field_name: String::from_str("style") },
            ),
            Some(ButtonStyles::Link) => {
                if self.url.is_none() {
                    Err(
                        ValidationError::MissingRequiredField {
                            field_name: String::from_str("url"),
                        },
                    )
                } else {
                    Ok(())
                }
            },
            Some(_) => {
                match &self.custom_id {
                    Some(id) => context.register_button(id.as_str()),
                    None => Err(
                        ValidationError::MissingRequiredField {
                            field_name: String::from_str("custom id"),
                        },
                    ),
                }
            },
        }
    }
}

impl NonCompositeComponent {
    /// Checks the component this value wraps.
    pub fn check_compatibility(&self, context: &mut MessageContext) -> (r: Result<
        (),
        ValidationError,
    >)
        ensures
            final(context)@ == spec_check_component(old(context)@, *self).0,
            result_view(r) == spec_check_component(old(context)@, *self).1,
    {
        match self {
            NonCompositeComponent::Button(b) => b.check_compatibility(context),
        }
    }
}

impl ActionRow {
    /// Checks this action row: resets the per-row counter, rejects an empty
    /// row, and otherwise checks the components in order.
    pub fn check_compatibility(&self, context: &mut MessageContext) -> (r: Result<
        (),
        ValidationError,
    >)
        ensures
            final(context)@ == spec_check_row(old(context)@, *self).0,
            result_view(r) == spec_check_row(old(context)@, *self).1,
    {
        context.register_action_row();
        if self.components.len() == 0 {
            return Err(
                ValidationError::EmptyComposite {
                    composite_name: String::from_str("action row"),
                },
            );
        }
        let ghost c0 = context@;
        let cl = self.components.len();
        let mut i: usize = 0;
        while i < cl
            invariant
                i <= cl,
                cl == self.components@.len(),
                cl > 0,
                spec_check_components_from(c0, self.components@, 0) == spec_check_components_from(
                    context@,
                    self.components@,
                    i as int,
                ),
                spec_check_row(old(context)@, *self) == spec_check_components_from(
                    c0,
                    self.components@,
                    0,
                ),
            decreases cl - i,
        {
            match self.components[i].check_compatibility(context) {
                Err(e) => {
                    return Err(e);
                },
                Ok(()) => {},
            }
            i = i + 1;
        }
        Ok(())
    }
}

impl Message {
    /// Checks this message: the action row count first, then every embed in
    /// order, then every action row in order.
    pub fn check_compatibility(&self, context: &mut MessageContext) -> (r: Result<
        (),
        ValidationError,
    >)
        ensures
            final(context)@ == spec_check_message(old(context)@, *self).0,
            result_view(r) == spec_check_message(old(context)@, *self).1,
    {
        match interval_check(
            &Message::action_row_count_interval(),
            self.action_rows.len(),
            "Action row count",
            LimitKind::Count,
        ) {
            Err(e) => {
                return Err(e);
            },
            Ok(()) => {},
        }
        let ghost c0 = context@;
        let el = self.embeds.len();
        let mut i: usize = 0;
        while i < el
            invariant
                i <= el,
                el == self.embeds@.len(),
                c0 == old(context)@,
                self.action_rows@.len() <= ACTION_ROW_COUNT_MAX,
                spec_check_embeds_from(c0, self.embeds@, 0) == spec_check_embeds_from(
                    context@,
                    self.embeds@,
                    i as int,
                ),
            decreases el - i,
        {
            match self.embeds[i].check_compatibility(context) {
                Err(e) => {
                    return Err(e);
                },
                Ok(()) => {},
            }
            i = i + 1;
        }
        let ghost c1 = context@;
        let rl = self.action_rows.len();
        let mut j: usize = 0;
        while j < rl
            invariant
                j <= rl,
                rl == self.action_rows@.len(),
                c0 == old(context)@,
                self.action_rows@.len() <= ACTION_ROW_COUNT_MAX,
                spec_check_embeds_from(c0, self.embeds@, 0) == (
                    c1,
                    Ok::<(), ValidationErrorView>(()),
                ),
                spec_check_rows_from(c1, self.action_rows@, 0) == spec_check_rows_from(
                    context@,
                    self.action_rows@,
                    j as int,
                ),
            decreases rl - j,
        {
            match self.action_rows[j].check_compatibility(context) {
                Err(e) => {
                    return Err(e);
                },
                Ok(()) => {},
            }
            j = j + 1;
        }
        Ok(())
    }
}

/// The sole entry point of the validation engine: one full pass over
/// `message`, started from a fresh context. On success the caller may
/// serialize and transmit the message; on failure the returned error is the
/// first violation in document order.
pub fn validate(message: &Message) -> (r: Result<(), ValidationError>)
    ensures
        result_view(r) == spec_validate(*message),
{
    let mut context = MessageContext::new();
    proof {
        assert(context@ == spec_empty_context());
    }
    message.check_compatibility(&mut context)
}

} // verus!
