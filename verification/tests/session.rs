use chat_client::message::{Message, Role};
use chat_client::session::Session;

fn user(content: &str) -> Message {
    Message { role: Role::User, content: content.to_string() }
}

fn assistant(content: &str) -> Message {
    Message { role: Role::Assistant, content: content.to_string() }
}

#[test]
fn two_prompts_in_a_row_build_a_history_of_four() {
    let mut session = Session::new("some/model".to_string(), false);

    let first = session.submit("Hello".to_string()).unwrap();
    assert_eq!(first.model, "some/model");
    assert!(!first.stream);
    assert_eq!(first.messages, vec![user("Hello")]);
    assert!(session.complete("Hi there".to_string()));

    let second = session.submit("How are you?".to_string()).unwrap();
    assert_eq!(second.messages, vec![user("Hello"), assistant("Hi there"), user("How are you?")]);
    assert!(session.complete("Fine".to_string()));

    let history = session.history();
    assert_eq!(history.len(), 4);
    assert_eq!(
        history.snapshot(),
        vec![user("Hello"), assistant("Hi there"), user("How are you?"), assistant("Fine")]
    );
    // The first request is as it was sent.
    assert_eq!(first.messages, vec![user("Hello")]);
    assert_eq!(second.messages.len(), 3);
}

#[test]
fn a_second_prompt_waits_for_the_answer_to_the_first() {
    let mut session = Session::new("m".to_string(), true);
    assert!(!session.is_busy());
    let first = session.submit("one".to_string());
    assert!(first.is_some());
    assert!(first.unwrap().stream);
    assert!(session.is_busy());
    assert!(session.submit("two".to_string()).is_none());
    assert_eq!(session.history().len(), 1);
    assert!(session.complete("1".to_string()));
    assert!(!session.is_busy());
    let second = session.submit("two".to_string()).unwrap();
    assert_eq!(second.messages, vec![user("one"), assistant("1"), user("two")]);
}

#[test]
fn an_answer_without_a_request_is_not_recorded() {
    let mut session = Session::new("m".to_string(), false);
    assert!(!session.complete("nobody asked".to_string()));
    assert_eq!(session.history().len(), 0);
    assert!(!session.fail());
    assert!(session.submit("one".to_string()).is_some());
    assert!(session.complete("1".to_string()));
    assert!(!session.complete("again".to_string()));
    assert_eq!(session.history().len(), 2);
}

#[test]
fn a_failed_request_does_not_end_the_session() {
    let mut session = Session::new("m".to_string(), false);
    assert!(session.submit("one".to_string()).is_some());
    assert!(session.fail());
    assert!(!session.is_busy());
    assert_eq!(session.history().snapshot(), vec![user("one")]);
    let next = session.submit("two".to_string()).unwrap();
    assert_eq!(next.messages, vec![user("one"), user("two")]);
}
