//! The general guarantees of the validation engine, each stated over the
//! specification model and proved once and for all.

use vstd::prelude::*;

use crate::checker::{
    spec_check_button, spec_check_embed, spec_check_label, spec_check_row, spec_validate,
};
use crate::components::{ActionRow, Button, ButtonStyles};
use crate::context::{
    embed_text_len, sat_cap, spec_register_action_row, spec_register_button,
    spec_register_custom_id, MessageContextView,
};
use crate::error::ValidationErrorView;
use crate::models::{
    Embed, Message, ACTION_ROW_COUNT_MAX, CUSTOM_ID_LEN_MAX, CUSTOM_ID_LEN_MIN,
    EMBED_TOTAL_TEXT_LEN_MAX, FIELDS_LEN_MAX,
};

verus! {

/// A message with more action rows than the per-message limit fails with
/// `LimitExceeded` naming the action row count — before any embed or row is
/// examined, so no other property of the message matters.
pub proof fn law_action_row_count_exceeded(m: Message)
    requires
        m.action_rows@.len() > ACTION_ROW_COUNT_MAX,
    ensures
        spec_validate(m) == Err::<(), ValidationErrorView>(
            ValidationErrorView::LimitExceeded {
                field_name: "Action row count"@,
                value: m.action_rows@.len(),
                min_allowed: 0,
                max_allowed: ACTION_ROW_COUNT_MAX as nat,
            },
        ),
{
}

/// A custom id of admissible length that is not yet taken is accepted and
/// reserved; one whose length falls outside the custom id interval is
/// rejected with `LengthExceeded`, whatever the context holds.
pub proof fn law_custom_id_length(ctx: MessageContextView, id: Seq<char>)
    ensures
        (id.len() < CUSTOM_ID_LEN_MIN || id.len() > CUSTOM_ID_LEN_MAX)
            ==> spec_register_custom_id(ctx, id) == (
            ctx,
            Err::<(), ValidationErrorView>(
                ValidationErrorView::LengthExceeded {
                    field_name: "Custom ID length"@,
                    value: id.len(),
                    min_allowed: CUSTOM_ID_LEN_MIN as nat,
                    max_allowed: CUSTOM_ID_LEN_MAX as nat,
                },
            ),
        ),
        (CUSTOM_ID_LEN_MIN <= id.len() && id.len() <= CUSTOM_ID_LEN_MAX
            && !ctx.custom_ids.contains(id)) ==> spec_register_custom_id(ctx, id) == (
            (MessageContextView { custom_ids: ctx.custom_ids.insert(id), ..ctx }),
            Ok::<(), ValidationErrorView>(()),
        ),
{
}

/// A successful registration reserves the id for the remainder of the pass:
/// the context now contains it, and registering the same id again fails with
/// `DuplicateIdentifier` naming it.
pub proof fn law_custom_id_reserved(ctx: MessageContextView, id: Seq<char>)
    requires
        spec_register_custom_id(ctx, id).1 is Ok,
    ensures
        spec_register_custom_id(ctx, id).0.custom_ids.contains(id),
        spec_register_custom_id(spec_register_custom_id(ctx, id).0, id).1
            == Err::<(), ValidationErrorView>(ValidationErrorView::DuplicateIdentifier { id }),
{
}

/// A button whose custom id is already taken anywhere in the message fails
/// with `DuplicateIdentifier` naming the id.
pub proof fn law_duplicate_button_rejected(ctx: MessageContextView, id: Seq<char>)
    requires
        CUSTOM_ID_LEN_MIN <= id.len() && id.len() <= CUSTOM_ID_LEN_MAX,
        ctx.custom_ids.contains(id),
    ensures
        spec_register_button(ctx, id).1 == Err::<(), ValidationErrorView>(
            ValidationErrorView::DuplicateIdentifier { id },
        ),
{
}

/// Switching to a new action row keeps the set of registered custom ids (and
/// the character counter): duplicate detection is message-scoped, while the
/// button counter is row-scoped.
pub proof fn law_uniqueness_is_message_scoped(ctx: MessageContextView)
    ensures
        spec_register_action_row(ctx).custom_ids == ctx.custom_ids,
        spec_register_action_row(ctx).embeds_character_counter == ctx.embeds_character_counter,
        spec_register_action_row(ctx).button_count_in_action_row == 0,
{
}

/// A button without a style fails with `MissingRequiredField` naming the
/// style, whatever the context holds.
pub proof fn law_button_style_required(ctx: MessageContextView, b: Button)
    requires
        b.style is None,
        spec_check_label(b.label) is Ok,
    ensures
        spec_check_button(ctx, b) == (
            ctx,
            Err::<(), ValidationErrorView>(
                ValidationErrorView::MissingRequiredField { field_name: "style"@ },
            ),
        ),
{
}

/// A link button without a url fails with `MissingRequiredField` naming the
/// url; it registers nothing.
pub proof fn law_link_button_url_required(ctx: MessageContextView, b: Button)
    requires
        b.style == Some(ButtonStyles::Link),
        b.url is None,
        spec_check_label(b.label) is Ok,
    ensures
        spec_check_button(ctx, b) == (
            ctx,
            Err::<(), ValidationErrorView>(
                ValidationErrorView::MissingRequiredField { field_name: "url"@ },
            ),
        ),
{
}

/// A non-link button without a custom id fails with `MissingRequiredField`
/// naming the custom id; it registers nothing.
pub proof fn law_regular_button_custom_id_required(ctx: MessageContextView, b: Button)
    requires
        b.style is Some,
        b.style != Some(ButtonStyles::Link),
        b.custom_id is None,
        spec_check_label(b.label) is Ok,
    ensures
        spec_check_button(ctx, b) == (
            ctx,
            Err::<(), ValidationErrorView>(
                ValidationErrorView::MissingRequiredField { field_name: "custom id"@ },
            ),
        ),
{
}

/// An embed whose character contribution pushes the running total past the
/// message-wide bound fails with `LimitExceeded` naming the character count
/// across all embeds — even when every one of its own fields is within its
/// local interval.
pub proof fn law_embed_total_text_exceeded(ctx: MessageContextView, e: Embed)
    requires
        ctx.embeds_character_counter + embed_text_len(e) > EMBED_TOTAL_TEXT_LEN_MAX,
    ensures
        spec_check_embed(ctx, e).1 == Err::<(), ValidationErrorView>(
            ValidationErrorView::LimitExceeded {
                field_name: "Character count across all embeds"@,
                value: sat_cap(ctx.embeds_character_counter as int + embed_text_len(e)),
                min_allowed: 0,
                max_allowed: EMBED_TOTAL_TEXT_LEN_MAX as nat,
            },
        ),
{
}

/// An embed with more fields than the per-embed limit fails with
/// `LimitExceeded` naming the field count, provided its characters still fit
/// the message-wide total (which is checked first).
pub proof fn law_field_count_exceeded(ctx: MessageContextView, e: Embed)
    requires
        ctx.embeds_character_counter + embed_text_len(e) <= EMBED_TOTAL_TEXT_LEN_MAX,
        e.fields@.len() > FIELDS_LEN_MAX,
    ensures
        spec_check_embed(ctx, e).1 == Err::<(), ValidationErrorView>(
            ValidationErrorView::LimitExceeded {
                field_name: "Field count"@,
                value: e.fields@.len(),
                min_allowed: 0,
                max_allowed: FIELDS_LEN_MAX as nat,
            },
        ),
{
}

/// An action row with zero components fails with `EmptyComposite` naming the
/// action row, whatever the context holds.
pub proof fn law_empty_action_row(ctx: MessageContextView, row: ActionRow)
    requires
        row.components@.len() == 0,
    ensures
        spec_check_row(ctx, row).1 == Err::<(), ValidationErrorView>(
            ValidationErrorView::EmptyComposite { composite_name: "action row"@ },
        ),
{
}

} // verus!
