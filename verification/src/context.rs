//! The per-validation-run accumulator of global state: seen custom ids, the
//! running embed character counter, and the per-row button counter.

use vstd::prelude::*;

use crate::error::{result_view, ValidationError, ValidationErrorView};
use crate::interval::LimitKind;
use crate::interval::interval_check;
use crate::models::{
    Embed, Message, BUTTON_COUNT_MAX, CUSTOM_ID_LEN_MAX, CUSTOM_ID_LEN_MIN,
    EMBED_TOTAL_TEXT_LEN_MAX,
};
use crate::components::ActionRow;

verus! {

/// Mutable state of one validation pass. Constructed empty at the start of
/// each pass; never reused across passes.
pub struct MessageContext {
    pub custom_ids: Vec<String>,
    pub embeds_character_counter: usize,
    pub button_count_in_action_row: usize,
}

/// The mathematical shadow of [`MessageContext`]: the registered custom ids
/// as a set of character sequences, and the two counters.
pub struct MessageContextView {
    pub custom_ids: Set<Seq<char>>,
    pub embeds_character_counter: nat,
    pub button_count_in_action_row: nat,
}

impl View for MessageContext {
    type V = MessageContextView;

    open spec fn view(&self) -> MessageContextView {
        MessageContextView {
            custom_ids: self.custom_ids@.map_values(|s: String| s@).to_set(),
            embeds_character_counter: self.embeds_character_counter as nat,
            button_count_in_action_row: self.button_count_in_action_row as nat,
        }
    }
}

/// Addition capped at `usize::MAX`, mirroring how the counters saturate
/// instead of wrapping or overflowing.
pub open spec fn sat_cap(x: int) -> nat {
    if x > usize::MAX as int {
        usize::MAX as nat
    } else if x < 0 {
        0
    } else {
        x as nat
    }
}

/// Saturating addition on the counters.
fn sat_add_usize(a: usize, b: usize) -> (r: usize)
    ensures
        r as nat == sat_cap(a + b),
{
    if a > usize::MAX - b {
        usize::MAX
    } else {
        a + b
    }
}

/// The character length of an optional string, in characters.
pub open spec fn opt_text_len(s: Option<String>) -> nat {
    match s {
        Some(x) => x@.len(),
        None => 0,
    }
}

/// The combined character length of the names and values of a sequence of
/// embed fields.
pub open spec fn fields_text_len(fields: Seq<crate::models::EmbedField>) -> nat
    decreases fields.len(),
{
    if fields.len() == 0 {
        0
    } else {
        fields_text_len(fields.drop_last()) + fields.last().name@.len()
            + fields.last().value@.len()
    }
}

/// The character count an embed contributes to the message-wide total: the
/// lengths of its title, description, footer text, author name, and every
/// field's name and value.
pub open spec fn embed_text_len(e: Embed) -> nat {
    opt_text_len(e.title) + opt_text_len(e.description) + (match e.footer {
        Some(f) => f.text@.len(),
        None => 0,
    }) + (match e.author {
        Some(a) => a.name@.len(),
        None => 0,
    }) + fields_text_len(e.fields@)
}

/// The outcome of registering a custom id: rejected when its length falls
/// outside the custom id interval, rejected when it was already registered
/// anywhere in the same message, otherwise reserved from now on.
pub open spec fn spec_register_custom_id(ctx: MessageContextView, id: Seq<char>) -> (
    MessageContextView,
    Result<(), ValidationErrorView>,
) {
    if !(CUSTOM_ID_LEN_MIN <= id.len() && id.len() <= CUSTOM_ID_LEN_MAX) {
        (
            ctx,
            Err(
                ValidationErrorView::LengthExceeded {
                    field_name: "Custom ID length"@,
                    value: id.len(),
                    min_allowed: CUSTOM_ID_LEN_MIN as nat,
                    max_allowed: CUSTOM_ID_LEN_MAX as nat,
                },
            ),
        )
    } else if ctx.custom_ids.contains(id) {
        (ctx, Err(ValidationErrorView::DuplicateIdentifier { id }))
    } else {
        (
            MessageContextView { custom_ids: ctx.custom_ids.insert(id), ..ctx },
            Ok(()),
        )
    }
}

/// The outcome of registering a button: its custom id is registered, then the
/// per-row button counter is bumped and held against the per-row interval.
pub open spec fn spec_register_button(ctx: MessageContextView, id: Seq<char>) -> (
    MessageContextView,
    Result<(), ValidationErrorView>,
) {
    let (c1, r1) = spec_register_custom_id(ctx, id);
    if r1 is Err {
        (c1, r1)
    } else {
        let c2 = MessageContextView {
            button_count_in_action_row: sat_cap(c1.button_count_in_action_row as int + 1),
            ..c1
        };
        if c2.button_count_in_action_row > BUTTON_COUNT_MAX {
            (
                c2,
                Err(
                    ValidationErrorView::LimitExceeded {
                        field_name: "Button count"@,
                        value: c2.button_count_in_action_row,
                        min_allowed: 0,
                        max_allowed: BUTTON_COUNT_MAX as nat,
                    },
                ),
            )
        } else {
            (c2, Ok(()))
        }
    }
}

/// The outcome of switching to a new action row: the per-row button counter
/// is reset; the registered ids and the character counter are kept, which is
/// what makes custom id uniqueness message-scoped.
pub open spec fn spec_register_action_row(ctx: MessageContextView) -> MessageContextView {
    MessageContextView { button_count_in_action_row: 0, ..ctx }
}

/// The outcome of registering an embed: its character contribution is added
/// to the running counter first, and only then is the counter held against
/// the message-wide interval — so the counter reflects every embed seen so
/// far even when the check fails, and the accumulation is never rolled back.
pub open spec fn spec_register_embed(ctx: MessageContextView, e: Embed) -> (
    MessageContextView,
    Result<(), ValidationErrorView>,
) {
    let c1 = MessageContextView {
        embeds_character_counter: sat_cap(ctx.embeds_character_counter as int + embed_text_len(e)),
        ..ctx
    };
    if c1.embeds_character_counter > EMBED_TOTAL_TEXT_LEN_MAX {
        (
            c1,
            Err(
                ValidationErrorView::LimitExceeded {
                    field_name: "Character count across all embeds"@,
                    value: c1.embeds_character_counter,
                    min_allowed: 0,
                    max_allowed: EMBED_TOTAL_TEXT_LEN_MAX as nat,
                },
            ),
        )
    } else {
        (c1, Ok(()))
    }
}

impl MessageContext {
    /// A fresh context: no ids seen, both counters at zero.
    pub fn new() -> (r: MessageContext)
        ensures
            r@.custom_ids == Set::<Seq<char>>::empty(),
            r@.embeds_character_counter == 0,
            r@.button_count_in_action_row == 0,
    {
        let r = MessageContext {
            custom_ids: Vec::new(),
            button_count_in_action_row: 0,
            embeds_character_counter: 0,
        };
        proof {
            assert(r@.custom_ids =~= Set::<Seq<char>>::empty());
        }
        r
    }

    /// Tries to register a custom id.
    ///
    /// Use `register_button` for buttons: it additionally counts the button
    /// against the per-row limit.
    pub fn register_custom_id(&mut self, id: &str) -> (r: Result<(), ValidationError>)
        ensures
            final(self)@ == spec_register_custom_id(old(self)@, id@).0,
            result_view(r) == spec_register_custom_id(old(self)@, id@).1,
    {
        let len = id.unicode_len();
        match interval_check(
            &Message::custom_id_len_interval(),
            len,
            "Custom ID length",
            LimitKind::Length,
        ) {
            Err(e) => Err(e),
            Ok(()) => {
                let id_string = id.to_owned();
                let n = self.custom_ids.len();
                let mut j: usize = 0;
                let mut found = false;
                while j < n
                    invariant
                        j <= n,
                        n == self.custom_ids@.len(),
                        id_string@ == id@,
                        found <==> exists|k: int|
                            0 <= k < j && #[trigger] self.custom_ids@[k]@ == id@,
                    decreases n - j,
                {
                    if self.custom_ids[j] == id_string {
                        found = true;
                    }
                    j = j + 1;
                }
                proof {
                    let f = |s: String| s@;
                    let m = self.custom_ids@.map_values(f);
                    assert(found <==> m.contains(id@)) by {
                        if found {
                            let k = choose|k: int|
                                0 <= k < n && #[trigger] self.custom_ids@[k]@ == id@;
                            assert(m[k] == id@);
                        }
                        if m.contains(id@) {
                            let k = choose|k: int| 0 <= k < m.len() && m[k] == id@;
                            assert(self.custom_ids@[k]@ == id@);
                        }
                    }
                    assert(found <==> old(self)@.custom_ids.contains(id@));
                }
                if found {
                    Err(ValidationError::DuplicateIdentifier { id: id_string })
                } else {
                    let ghost prev = self.custom_ids@;
                    self.custom_ids.push(id_string);
                    proof {
                        let f = |s: String| s@;
                        assert(self.custom_ids@.map_values(f) =~= prev.map_values(f).push(id@));
                        prev.map_values(f).lemma_push_to_set_commute(id@);
                        assert(self@.custom_ids =~= old(self)@.custom_ids.insert(id@));
                    }
                    Ok(())
                }
            },
        }
    }

    /// Tries to register a button using the button's custom id.
    ///
    /// Subsequent calls register components semantically in the same action
    /// row; call `register_action_row` first to switch to a new row.
    pub fn register_button(&mut self, id: &str) -> (r: Result<(), ValidationError>)
        ensures
            final(self)@ == spec_register_button(old(self)@, id@).0,
            result_view(r) == spec_register_button(old(self)@, id@).1,
    {
        match self.register_custom_id(id) {
            Err(e) => Err(e),
            Ok(()) => {
                self.button_count_in_action_row = sat_add_usize(
                    self.button_count_in_action_row,
                    1,
                );
                interval_check(
                    &ActionRow::button_count_interval(),
                    self.button_count_in_action_row,
                    "Button count",
                    LimitKind::Count,
                )
            },
        }
    }

    /// Switches the context to register components logically in a new action
    /// row. Call exactly once per action row, before validating its
    /// components.
    pub fn register_action_row(&mut self)
        ensures
            final(self)@ == spec_register_action_row(old(self)@),
    {
        self.button_count_in_action_row = 0;
    }

    /// Tries to register an embed's character contribution against the
    /// message-wide total.
    pub fn register_embed(&mut self, embed: &Embed) -> (r: Result<(), ValidationError>)
        ensures
            final(self)@ == spec_register_embed(old(self)@, *embed).0,
            result_view(r) == spec_register_embed(old(self)@, *embed).1,
    {
        let mut add: usize = 0;
        match &embed.title {
            Some(t) => { add = sat_add_usize(add, t.as_str().unicode_len()); },
            None => {},
        }
        match &embed.description {
            Some(d) => { add = sat_add_usize(add, d.as_str().unicode_len()); },
            None => {},
        }
        match &embed.footer {
            Some(f) => { add = sat_add_usize(add, f.text.as_str().unicode_len()); },
            None => {},
        }
        match &embed.author {
            Some(a) => { add = sat_add_usize(add, a.name.as_str().unicode_len()); },
            None => {},
        }
        let ghost head_len = opt_text_len(embed.title) + opt_text_len(embed.description) + (
        match &embed.footer {
            Some(f) => f.text@.len(),
            None => 0nat,
        }) + (match &embed.author {
            Some(a) => a.name@.len(),
            None => 0nat,
        });
        assert(add as nat == sat_cap(head_len as int));
        let fl = embed.fields.len();
        let mut i: usize = 0;
        while i < fl
            invariant
                i <= fl,
                fl == embed.fields@.len(),
                add as nat == sat_cap(head_len as int + fields_text_len(embed.fields@.take(i as int))),
            decreases fl - i,
        {
            let name_len = embed.fields[i].name.as_str().unicode_len();
            let value_len = embed.fields[i].value.as_str().unicode_len();
            add = sat_add_usize(add, name_len);
            add = sat_add_usize(add, value_len);
            i = i + 1;
            proof {
                assert(embed.fields@.take(i as int).drop_last() =~= embed.fields@.take(
                    i as int - 1,
                ));
            }
        }
        proof {
            assert(embed.fields@.take(fl as int) =~= embed.fields@);
            assert(add as nat == sat_cap(embed_text_len(*embed) as int));
        }
        self.embeds_character_counter = sat_add_usize(self.embeds_character_counter, add);
        interval_check(
            &Message::embed_total_text_len_interval(),
            self.embeds_character_counter,
            "Character count across all embeds",
            LimitKind::Count,
        )
    }
}

} // verus!
