use chat_client::message::{Message, Role};

#[test]
fn roles_go_by_their_names() {
    assert_eq!(Role::User.name(), "user");
    assert_eq!(Role::Assistant.name(), "assistant");
    assert_eq!(Role::System.name(), "system");
}

#[test]
fn names_give_their_roles() {
    assert_eq!(Role::from_name("user"), Some(Role::User));
    assert_eq!(Role::from_name("assistant"), Some(Role::Assistant));
    assert_eq!(Role::from_name("system"), Some(Role::System));
    for role in [Role::User, Role::Assistant, Role::System] {
        assert_eq!(Role::from_name(role.name()), Some(role));
    }
}

#[test]
fn other_names_give_no_role() {
    assert_eq!(Role::from_name(""), None);
    assert_eq!(Role::from_name("User"), None);
    assert_eq!(Role::from_name("tool"), None);
    assert_eq!(Role::from_name("user "), None);
}

#[test]
fn messages_are_made_with_their_role() {
    assert_eq!(Message::user("a".to_string()), Message { role: Role::User, content: "a".to_string() });
    assert_eq!(
        Message::assistant("b".to_string()),
        Message { role: Role::Assistant, content: "b".to_string() }
    );
    assert_eq!(Message::system("c".to_string()), Message { role: Role::System, content: "c".to_string() });
}

#[test]
fn messages_are_equal_by_role_and_content() {
    let message = Message::user("a".to_string());
    assert_eq!(message.clone(), message);
    assert_ne!(message, Message::assistant("a".to_string()));
    assert_ne!(message, Message::user("b".to_string()));
}
