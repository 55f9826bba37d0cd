//! A message as it comes off a queue.

use vstd::prelude::*;

verus! {

/// One message received from a queue. `A` is whatever the queue service
/// attaches as message attributes; the library never looks inside it.
#[derive(Clone, Debug, PartialEq, Eq)]
pub struct Message<A> {
    /// Identifier assigned by the service. Only ever shown to the operator.
    pub id: Option<String>,
    /// The payload.
    pub body: Option<String>,
    /// The attributes attached to the message, if it has any.
    pub attributes: Option<A>,
    /// Token proving this receipt of the message; needed to delete it.
    pub receipt_handle: Option<String>,
}

/// What a [`Message`] holds, with text as sequences of characters.
pub struct MessageView<A> {
    pub id: Option<Seq<char>>,
    pub body: Option<Seq<char>>,
    pub attributes: Option<A>,
    pub receipt_handle: Option<Seq<char>>,
}

impl<A> View for Message<A> {
    type V = MessageView<A>;

    open spec fn view(&self) -> MessageView<A> {
        MessageView {
            id: self.id.deep_view(),
            body: self.body.deep_view(),
            attributes: self.attributes,
            receipt_handle: self.receipt_handle.deep_view(),
        }
    }
}

impl<A> DeepView for Message<A> {
    type V = MessageView<A>;

    open spec fn deep_view(&self) -> MessageView<A> {
        self@
    }
}

impl<A> MessageView<A> {
    /// A message can be replayed when it has a body to forward and a receipt
    /// handle to delete it by.
    pub open spec fn replayable(self) -> bool {
        self.body is Some && self.receipt_handle is Some
    }

    /// The name a message goes by in the operator's log.
    pub open spec fn label(self) -> Seq<char> {
        match self.id {
            Some(id) => id,
            None => "no-id"@,
        }
    }
}

impl<A> Message<A> {
    /// The name to log this message under: its identifier, or `no-id` when
    /// the service gave none.
    pub fn label(&self) -> (name: String)
        ensures
            name@ == self@.label(),
    {
        match &self.id {
            Some(id) => id.clone(),
            None => "no-id".to_owned(),
        }
    }
}

/// The first message of a batch.
pub open spec fn head_of<A>(batch: Option<Seq<MessageView<A>>>) -> Option<MessageView<A>> {
    match batch {
        Some(messages) if messages.len() > 0 => Some(messages[0]),
        _ => None,
    }
}

/// Takes the one message out of the answer to a receive that asked for at
/// most one. An absent or empty batch means the queue had nothing to give.
/// Should a service hand over more than it was asked for, only the first
/// message is taken; the others were never touched and stay on the queue.
pub fn receive_one<A>(batch: Option<Vec<Message<A>>>) -> (message: Option<Message<A>>)
    ensures
        message.deep_view() == head_of(batch.deep_view()),
{
    match batch {
        Some(mut messages) => {
            if messages.len() > 0 {
                Some(messages.remove(0))
            } else {
                None
            }
        },
        None => None,
    }
}

} // verus!
