//! One interactive session: the history, and one request at a time.

use vstd::prelude::*;
use crate::conversation::{ConversationState, EnvelopeView, RequestEnvelope};
use crate::gate::{AdmissionGate, GateView};
use crate::message::{Message, MessageView, Role};

verus! {

/// What may happen to a session.
pub enum SessionEvent {
    /// The user said something.
    Submit(Seq<char>),
    /// The assistant answered.
    Complete(Seq<char>),
    /// A request came to nothing.
    Fail,
}

/// A session as a plain value.
pub struct SessionView {
    /// The model that is asked.
    pub model: Seq<char>,
    /// Whether answers are to come as streams.
    pub stream: bool,
    /// The conversation so far.
    pub history: Seq<MessageView>,
    /// Admits one request at a time.
    pub gate: GateView,
}

impl SessionView {
    /// Whether a request is under way, so that no other is admitted.
    pub open spec fn busy(self) -> bool {
        !self.gate.admits()
    }

    /// The request that carries the whole history.
    pub open spec fn envelope(self) -> EnvelopeView {
        EnvelopeView { model: self.model, messages: self.history, stream: self.stream }
    }

    /// The session after the user said `prompt` and the request went out.
    pub open spec fn submitted(self, prompt: Seq<char>) -> SessionView {
        SessionView {
            history: self.history.push(MessageView { role: Role::User, content: prompt }),
            gate: self.gate.acquired(),
            ..self
        }
    }

    /// The session after the assistant answered `reply`.
    pub open spec fn completed(self, reply: Seq<char>) -> SessionView {
        SessionView {
            history: self.history.push(MessageView { role: Role::Assistant, content: reply }),
            gate: self.gate.released(),
            ..self
        }
    }

    /// The session after its request came to nothing.
    pub open spec fn failed(self) -> SessionView {
        SessionView { gate: self.gate.released(), ..self }
    }

    /// The session after `event`: a prompt is taken unless a request is
    /// under way, and an answer is taken if one is.
    pub open spec fn step(self, event: SessionEvent) -> SessionView {
        match event {
            SessionEvent::Submit(prompt) => if self.busy() {
                self
            } else {
                self.submitted(prompt)
            },
            SessionEvent::Complete(reply) => if self.gate.in_flight > 0 {
                self.completed(reply)
            } else {
                self
            },
            SessionEvent::Fail => self.failed(),
        }
    }

    /// The session after the events of `events`, in order.
    pub open spec fn run(self, events: Seq<SessionEvent>) -> SessionView
        decreases events.len(),
    {
        if events.len() == 0 {
            self
        } else {
            self.step(events.first()).run(events.drop_first())
        }
    }
}

/// Whatever happens to a session whose gate has one slot, and in whatever
/// order, at most one request is under way, and the history only grows:
/// what was said stays said, in its place.
pub proof fn lemma_one_request_at_a_time(session: SessionView, events: Seq<SessionEvent>)
    requires
        session.gate.capacity == 1,
        session.gate.bounded(),
    ensures
        session.run(events).gate.capacity == 1,
        session.run(events).gate.in_flight <= 1,
        session.history.is_prefix_of(session.run(events).history),
        session.run(events).model == session.model,
        session.run(events).stream == session.stream,
    decreases events.len(),
{
    if events.len() > 0 {
        let next = session.step(events.first());
        lemma_one_request_at_a_time(next, events.drop_first());
        assert(session.history.is_prefix_of(next.history));
    }
}

/// An interactive session. Its history is its own, and a gate with one slot
/// sees to it that at most one request is under way at any time: each
/// request carries the answers to all requests before it.
pub struct Session {
    model: String,
    stream: bool,
    history: ConversationState,
    gate: AdmissionGate,
}

impl View for Session {
    type V = SessionView;

    closed spec fn view(&self) -> SessionView {
        SessionView {
            model: self.model@,
            stream: self.stream,
            history: self.history@,
            gate: self.gate@,
        }
    }
}

impl Session {
    /// A session in which nothing was said yet.
    pub fn new(model: String, stream: bool) -> (session: Self)
        ensures
            session@ == (SessionView {
                model: model@,
                stream,
                history: Seq::<MessageView>::empty(),
                gate: GateView { capacity: 1, in_flight: 0 },
            }),
    {
        Session { model, stream, history: ConversationState::new(), gate: AdmissionGate::new(1) }
    }

    /// The conversation so far.
    pub fn history(&self) -> (history: &ConversationState)
        ensures
            history@ == self@.history,
    {
        &self.history
    }

    /// Whether a request is under way.
    pub fn is_busy(&self) -> (busy: bool)
        ensures
            busy == self@.busy(),
    {
        self.gate.in_flight() >= self.gate.capacity()
    }

    /// Takes a prompt of the user. Unless a request is under way, adds the
    /// prompt to the history and returns the request to send, which carries a
    /// copy of the whole history. While a request is under way, changes
    /// nothing and returns `None`: the caller has to wait for the answer.
    pub fn submit(&mut self, prompt: String) -> (request: Option<RequestEnvelope>)
        ensures
            match request {
                Some(envelope) => !old(self)@.busy() && final(self)@ == old(self)@.submitted(
                    prompt@,
                ) && envelope@ == final(self)@.envelope(),
                None => old(self)@.busy() && final(self)@ == old(self)@,
            },
    {
        if !self.gate.try_acquire() {
            return None;
        }
        self.history.append(Message::user(prompt));
        Some(
            RequestEnvelope {
                model: self.model.clone(),
                messages: self.history.snapshot(),
                stream: self.stream,
            },
        )
    }

    /// Takes the answer to the request under way: adds it to the history as
    /// a message of the assistant, and admits the next request. Returns
    /// `false`, and changes nothing, if no request is under way.
    pub fn complete(&mut self, reply: String) -> (recorded: bool)
        ensures
            recorded == (old(self)@.gate.in_flight > 0),
            final(self)@ == (if recorded {
                old(self)@.completed(reply@)
            } else {
                old(self)@
            }),
    {
        if !self.gate.release() {
            return false;
        }
        self.history.append(Message::assistant(reply));
        true
    }

    /// Takes note that the request under way came to nothing. The history
    /// stays as it is, and the next request is admitted. Returns `false` if
    /// no request was under way.
    pub fn fail(&mut self) -> (noted: bool)
        ensures
            noted == (old(self)@.gate.in_flight > 0),
            final(self)@ == old(self)@.failed(),
    {
        self.gate.release()
    }
}

} // verus!
