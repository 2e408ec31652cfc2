//! Messages: who said what.

use vstd::prelude::*;

verus! {

/// Who a message is from.
#[derive(Clone, Copy, Debug, PartialEq, Eq, Structural)]
pub enum Role {
    User,
    Assistant,
    System,
}

/// The role that goes by the name `name`, if there is one.
pub open spec fn role_named(name: Seq<char>) -> Option<Role> {
    if name == "user"@ {
        Some(Role::User)
    } else if name == "assistant"@ {
        Some(Role::Assistant)
    } else if name == "system"@ {
        Some(Role::System)
    } else {
        None
    }
}

impl Role {
    /// The name of the role on the wire.
    pub open spec fn spec_name(self) -> Seq<char> {
        match self {
            Role::User => "user"@,
            Role::Assistant => "assistant"@,
            Role::System => "system"@,
        }
    }

    /// The name of the role on the wire.
    pub fn name(self) -> (name: &'static str)
        ensures
            name@ == self.spec_name(),
    {
        match self {
            Role::User => "user",
            Role::Assistant => "assistant",
            Role::System => "system",
        }
    }

    /// The role that goes by the name `name`, if there is one.
    pub fn from_name(name: &str) -> (role: Option<Role>)
        ensures
            role == role_named(name@),
    {
        let given = String::from_str(name);
        if given == String::from_str("user") {
            Some(Role::User)
        } else if given == String::from_str("assistant") {
            Some(Role::Assistant)
        } else if given == String::from_str("system") {
            Some(Role::System)
        } else {
            None
        }
    }
}

/// Every role is the one that goes by its own name.
pub proof fn lemma_role_names_are_distinct(role: Role)
    ensures
        role_named(role.spec_name()) == Some(role),
{
    reveal_strlit("user");
    reveal_strlit("assistant");
    reveal_strlit("system");
    assert("assistant"@.len() == 9);
    assert("system"@.len() == 6);
}

/// One message of a conversation. It does not change once it is made.
#[derive(Debug)]
pub struct Message {
    /// Who the message is from.
    pub role: Role,
    /// What it says.
    pub content: String,
}

/// A message as a plain value.
pub struct MessageView {
    pub role: Role,
    pub content: Seq<char>,
}

impl View for Message {
    type V = MessageView;

    open spec fn view(&self) -> MessageView {
        MessageView { role: self.role, content: self.content@ }
    }
}

impl Clone for Message {
    fn clone(&self) -> (copy: Self)
        ensures
            copy == *self,
    {
        Message { role: self.role, content: self.content.clone() }
    }
}

impl PartialEq for Message {
    fn eq(&self, other: &Self) -> (same: bool) {
        self.role == other.role && self.content == other.content
    }
}

impl vstd::std_specs::cmp::PartialEqSpecImpl for Message {
    open spec fn obeys_eq_spec() -> bool {
        true
    }

    open spec fn eq_spec(&self, other: &Self) -> bool {
        self@ == other@
    }
}

impl Message {
    /// A message of the user.
    pub fn user(content: String) -> (message: Self)
        ensures
            message@ == (MessageView { role: Role::User, content: content@ }),
    {
        Message { role: Role::User, content }
    }

    /// A message of the assistant.
    pub fn assistant(content: String) -> (message: Self)
        ensures
            message@ == (MessageView { role: Role::Assistant, content: content@ }),
    {
        Message { role: Role::Assistant, content }
    }

    /// A message of the system.
    pub fn system(content: String) -> (message: Self)
        ensures
            message@ == (MessageView { role: Role::System, content: content@ }),
    {
        Message { role: Role::System, content }
    }
}

/// The views of a vector of messages.
pub open spec fn message_views(messages: Seq<Message>) -> Seq<MessageView> {
    messages.map_values(|m: Message| m@)
}

} // verus!
