use chat_client::conversation::{ConversationState, RequestEnvelope};
use chat_client::message::{Message, Role};

#[test]
fn a_new_conversation_is_empty() {
    let state = ConversationState::new();
    assert_eq!(state.len(), 0);
    assert!(state.is_empty());
    assert!(state.get(0).is_none());
    assert_eq!(state.snapshot().len(), 0);
}

#[test]
fn append_keeps_the_order() {
    let mut state = ConversationState::new();
    state.append(Message::system("be brief".to_string()));
    state.append(Message::user("Hello".to_string()));
    state.append(Message::assistant("Hi".to_string()));
    assert_eq!(state.len(), 3);
    assert!(!state.is_empty());
    assert_eq!(state.get(0), Some(&Message { role: Role::System, content: "be brief".to_string() }));
    assert_eq!(state.get(1), Some(&Message { role: Role::User, content: "Hello".to_string() }));
    assert_eq!(state.get(2), Some(&Message { role: Role::Assistant, content: "Hi".to_string() }));
    assert!(state.get(3).is_none());
}

#[test]
fn a_snapshot_is_not_changed_by_a_later_append() {
    let mut state = ConversationState::new();
    state.append(Message::user("Hello".to_string()));
    state.append(Message::assistant("Hi".to_string()));
    let snapshot = state.snapshot();
    assert_eq!(snapshot.len(), 2);
    state.append(Message::user("How are you?".to_string()));
    state.append(Message::assistant("Fine".to_string()));
    assert_eq!(state.len(), 4);
    assert_eq!(snapshot.len(), 2);
    assert_eq!(snapshot[0], Message { role: Role::User, content: "Hello".to_string() });
    assert_eq!(snapshot[1], Message { role: Role::Assistant, content: "Hi".to_string() });
    let later = state.snapshot();
    assert_eq!(later.len(), 4);
    assert_eq!(later[..2], snapshot[..]);
    assert_eq!(later[3].content, "Fine");
}

#[test]
fn changing_a_snapshot_does_not_change_the_conversation() {
    let mut state = ConversationState::new();
    state.append(Message::user("Hello".to_string()));
    let mut snapshot = state.snapshot();
    snapshot[0].content.push_str(", world");
    snapshot.push(Message::assistant("Hi".to_string()));
    assert_eq!(state.len(), 1);
    assert_eq!(state.get(0).unwrap().content, "Hello");
}

#[test]
fn a_single_request_carries_one_message_of_the_user() {
    let envelope = RequestEnvelope::single("some/model".to_string(), "Hello".to_string(), true);
    assert_eq!(envelope.model, "some/model");
    assert!(envelope.stream);
    assert_eq!(envelope.messages, vec![Message { role: Role::User, content: "Hello".to_string() }]);
}
