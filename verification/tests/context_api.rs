//! The validation context driven directly: id registration, per-row button
//! counting, and the running embed character total.

use webhook::context::MessageContext;
use webhook::error::ValidationError;
use webhook::models::Embed;

#[test]
fn register_custom_id_accepts_then_rejects() {
    let mut context = MessageContext::new();
    assert!(context.register_custom_id("abc").is_ok());
    match context.register_custom_id("abc") {
        Err(ValidationError::DuplicateIdentifier { id }) => assert_eq!(id, "abc"),
        _ => panic!("expected a duplicate identifier error"),
    }
    assert!(context.register_custom_id("abd").is_ok());
}

#[test]
fn register_custom_id_rejects_bad_lengths() {
    let mut context = MessageContext::new();
    assert!(matches!(
        context.register_custom_id(""),
        Err(ValidationError::LengthExceeded { .. })
    ));
    assert!(matches!(
        context.register_custom_id(&"a".repeat(101)),
        Err(ValidationError::LengthExceeded { .. })
    ));
    assert!(context.register_custom_id(&"a".repeat(100)).is_ok());
}

#[test]
fn register_button_counts_per_row() {
    let mut context = MessageContext::new();
    for i in 0..5 {
        assert!(context.register_button(&i.to_string()).is_ok());
    }
    match context.register_button("5") {
        Err(ValidationError::LimitExceeded { value, max_allowed, .. }) => {
            assert_eq!(value, 6);
            assert_eq!(max_allowed, 5);
        }
        _ => panic!("expected a button count error"),
    }
    // A new action row resets the counter but keeps the ids registered.
    context.register_action_row();
    assert!(context.register_button("6").is_ok());
    assert!(matches!(
        context.register_button("0"),
        Err(ValidationError::DuplicateIdentifier { .. })
    ));
}

#[test]
fn register_embed_accumulates_across_calls() {
    let mut context = MessageContext::new();
    assert!(context.register_embed(&Embed::new().description(&"a".repeat(4096))).is_ok());
    match context.register_embed(&Embed::new().description(&"a".repeat(4096))) {
        Err(ValidationError::LimitExceeded { value, .. }) => assert_eq!(value, 8192),
        _ => panic!("expected a character count error"),
    }
}

#[test]
fn register_embed_counts_all_text() {
    let mut context = MessageContext::new();
    let embed = Embed::new()
        .title("12345")
        .description("123")
        .footer("12", None)
        .author("1", None, None)
        .field("123456", "1234", false);
    assert!(context.register_embed(&embed).is_ok());
    assert_eq!(context.embeds_character_counter, 5 + 3 + 2 + 1 + 6 + 4);
}
