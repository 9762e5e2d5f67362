use debloater::chatbot::{clean_message_history, validate_conversation_length, ChatMessage};

fn msg(role: &str, content: &str) -> ChatMessage {
    ChatMessage { role: role.to_string(), content: content.to_string() }
}

#[test]
fn test_conversation_validation() {
    let empty: Vec<ChatMessage> = vec![];
    assert!(validate_conversation_length(&empty).is_ok());

    let normal = vec![msg("user", "Hello"), msg("assistant", "Hi there!")];
    assert!(validate_conversation_length(&normal).is_ok());

    let too_many: Vec<ChatMessage> = (0..51).map(|i| msg("user", &format!("Message {}", i))).collect();
    assert!(validate_conversation_length(&too_many).is_err());

    let too_large = vec![msg("user", &"a".repeat(60000))];
    assert!(validate_conversation_length(&too_large).is_err());
}

#[test]
fn conversation_limits_are_inclusive() {
    let fifty: Vec<ChatMessage> = (0..50).map(|_| msg("user", "x")).collect();
    assert!(validate_conversation_length(&fifty).is_ok());
    let exact = vec![msg("user", &"a".repeat(50000))];
    assert!(validate_conversation_length(&exact).is_ok());
    let over = vec![msg("user", &"a".repeat(25000)), msg("assistant", &"b".repeat(25001))];
    assert_eq!(
        validate_conversation_length(&over).unwrap_err(),
        "Conversation history too large. Please start a new conversation."
    );
    let multi = vec![msg("user", &"é".repeat(25001))];
    assert!(validate_conversation_length(&multi).is_err());
}

#[test]
fn history_is_cleaned_to_alternate() {
    let cleaned = clean_message_history(vec![
        msg("user", "  Is it safe?  "),
        msg("user", "again"),
        msg("assistant", "   "),
        msg("assistant", "Yes."),
        msg("system", "hello"),
    ])
    .unwrap();
    assert_eq!(cleaned.len(), 3);
    assert_eq!(cleaned[0].role, "user");
    assert_eq!(cleaned[0].content, "Is it safe?");
    assert_eq!(cleaned[1].role, "assistant");
    assert_eq!(cleaned[1].content, "Yes.");
    assert_eq!(cleaned[2].role, "user");
    assert_eq!(cleaned[2].content, "hello");
}

#[test]
fn history_errors() {
    assert_eq!(clean_message_history(vec![]).unwrap_err(), "No messages provided");
    assert_eq!(
        clean_message_history(vec![msg("user", "  ")]).unwrap_err(),
        "No valid messages after cleaning"
    );
    assert_eq!(
        clean_message_history(vec![msg("assistant", "hi")]).unwrap_err(),
        "First message must be from user"
    );
}
