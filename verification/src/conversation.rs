//! The history of a conversation, and the requests made from it.

use vstd::prelude::*;
use crate::message::{message_views, Message, MessageView};

verus! {

/// The messages exchanged in one session, in the order in which they were
/// said. Messages are added at the end and never taken away.
pub struct ConversationState {
    messages: Vec<Message>,
}

impl View for ConversationState {
    type V = Seq<MessageView>;

    closed spec fn view(&self) -> Seq<MessageView> {
        message_views(self.messages@)
    }
}

impl ConversationState {
    /// A conversation in which nothing was said yet.
    pub fn new() -> (state: Self)
        ensures
            state@ == Seq::<MessageView>::empty(),
    {
        ConversationState { messages: Vec::new() }
    }

    /// The number of messages.
    pub fn len(&self) -> (n: usize)
        ensures
            n == self@.len(),
    {
        self.messages.len()
    }

    /// Whether nothing was said yet.
    pub fn is_empty(&self) -> (empty: bool)
        ensures
            empty == (self@.len() == 0),
    {
        self.messages.len() == 0
    }

    /// The message at place `index`, the first being at place 0.
    pub fn get(&self, index: usize) -> (message: Option<&Message>)
        ensures
            match message {
                Some(m) => index < self@.len() && m@ == self@[index as int],
                None => index >= self@.len(),
            },
    {
        if index < self.messages.len() {
            Some(&self.messages[index])
        } else {
            None
        }
    }

    /// Adds `message` at the end.
    pub fn append(&mut self, message: Message)
        ensures
            final(self)@ == old(self)@.push(message@),
    {
        self.messages.push(message);
    }

    /// A copy of the messages so far, which no later `append` reaches.
    pub fn snapshot(&self) -> (copy: Vec<Message>)
        ensures
            message_views(copy@) == self@,
    {
        self.messages.clone()
    }
}

/// A snapshot holds the history as it was when it was taken. An append that
/// comes later makes the history longer by one message and leaves the
/// snapshot as it is: the snapshot is what the new history begins with.
pub proof fn lemma_snapshot_is_isolated(
    before: ConversationState,
    snapshot: Vec<Message>,
    message: Message,
    after: ConversationState,
)
    requires
        message_views(snapshot@) == before@,
        after@ == before@.push(message@),
    ensures
        message_views(snapshot@).len() == before@.len(),
        after@.len() == message_views(snapshot@).len() + 1,
        after@.take(before@.len() as int) == message_views(snapshot@),
        after@.last() == message@,
{
}

/// A request for a completion.
#[derive(Debug)]
pub struct RequestEnvelope {
    /// The model that is asked.
    pub model: String,
    /// The conversation so far, the newest message last.
    pub messages: Vec<Message>,
    /// Whether the answer is to come as a stream.
    pub stream: bool,
}

/// A request as a plain value.
pub struct EnvelopeView {
    pub model: Seq<char>,
    pub messages: Seq<MessageView>,
    pub stream: bool,
}

impl View for RequestEnvelope {
    type V = EnvelopeView;

    open spec fn view(&self) -> EnvelopeView {
        EnvelopeView {
            model: self.model@,
            messages: message_views(self.messages@),
            stream: self.stream,
        }
    }
}

impl RequestEnvelope {
    /// A request that carries one message of the user and no history.
    pub fn single(model: String, prompt: String, stream: bool) -> (envelope: Self)
        ensures
            envelope@ == (EnvelopeView {
                model: model@,
                messages: seq![MessageView { role: crate::message::Role::User, content: prompt@ }],
                stream,
            }),
    {
        let mut messages: Vec<Message> = Vec::new();
        messages.push(Message::user(prompt));
        let envelope = RequestEnvelope { model, messages, stream };
        assert(envelope@.messages =~= seq![
            MessageView { role: crate::message::Role::User, content: prompt@ },
        ]);
        envelope
    }
}

} // verus!
