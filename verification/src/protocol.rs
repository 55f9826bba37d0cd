//! What the engine asks of a queue service, and what a service answers.
//!
//! An [`Action`] is a request for the driver to carry out; an [`Event`] is
//! the driver's report of how it went. Neither does any work by itself.

use vstd::prelude::*;
use crate::error::TransportError;
use crate::message::Message;
use crate::message::MessageView;
use crate::resolver::NameReply;
use crate::resolver::SourcesReply;
use crate::resolver::name_reply_view;
use crate::resolver::sources_reply_view;

verus! {

/// A request to receive from a queue.
#[derive(Clone, Debug, PartialEq, Eq)]
pub struct ReceiveRequest {
    /// The queue to receive from.
    pub queue_url: String,
    /// The most messages the service may hand over at once.
    pub max_messages: i64,
    /// How long the service should wait for a message, in seconds; `None`
    /// leaves it to the queue's own setting.
    pub wait_seconds: Option<i64>,
}

/// A [`ReceiveRequest`] as text.
pub struct ReceiveRequestView {
    pub queue_url: Seq<char>,
    pub max_messages: i64,
    pub wait_seconds: Option<i64>,
}

impl View for ReceiveRequest {
    type V = ReceiveRequestView;

    open spec fn view(&self) -> ReceiveRequestView {
        ReceiveRequestView {
            queue_url: self.queue_url@,
            max_messages: self.max_messages,
            wait_seconds: self.wait_seconds,
        }
    }
}

/// A request to send a new message to a queue.
#[derive(Clone, Debug, PartialEq, Eq)]
pub struct SendRequest<A> {
    /// The queue to send to.
    pub queue_url: String,
    /// The payload of the new message.
    pub body: String,
    /// The attributes to attach to it.
    pub attributes: Option<A>,
    /// Deduplication token for the new message.
    pub deduplication_id: Option<String>,
    /// Message group of the new message.
    pub group_id: Option<String>,
}

/// A [`SendRequest`] as text.
pub struct SendRequestView<A> {
    pub queue_url: Seq<char>,
    pub body: Seq<char>,
    pub attributes: Option<A>,
    pub deduplication_id: Option<Seq<char>>,
    pub group_id: Option<Seq<char>>,
}

impl<A> View for SendRequest<A> {
    type V = SendRequestView<A>;

    open spec fn view(&self) -> SendRequestView<A> {
        SendRequestView {
            queue_url: self.queue_url@,
            body: self.body@,
            attributes: self.attributes,
            deduplication_id: self.deduplication_id.deep_view(),
            group_id: self.group_id.deep_view(),
        }
    }
}

/// A request to delete a received message from its queue.
#[derive(Clone, Debug, PartialEq, Eq)]
pub struct DeleteRequest {
    /// The queue the message was received from.
    pub queue_url: String,
    /// The receipt handle that came with the message.
    pub receipt_handle: String,
}

/// A [`DeleteRequest`] as text.
pub struct DeleteRequestView {
    pub queue_url: Seq<char>,
    pub receipt_handle: Seq<char>,
}

impl View for DeleteRequest {
    type V = DeleteRequestView;

    open spec fn view(&self) -> DeleteRequestView {
        DeleteRequestView { queue_url: self.queue_url@, receipt_handle: self.receipt_handle@ }
    }
}

/// What the engine wants done next.
#[derive(Clone, Debug, PartialEq, Eq)]
pub enum Action<A> {
    /// Look up the address of the queue with this name.
    ResolveName(String),
    /// List the queues that redirect into the dead-letter queue at this
    /// address.
    ListSources(String),
    /// Receive from the dead-letter queue.
    Receive(ReceiveRequest),
    /// Send a message to the source queue.
    Send(SendRequest<A>),
    /// Delete a message from the dead-letter queue.
    Delete(DeleteRequest),
    /// Wait this many milliseconds.
    Pause(u64),
    /// Nothing more to do: the session is over.
    Stop,
}

/// An [`Action`] as text.
pub enum ActionView<A> {
    ResolveName(Seq<char>),
    ListSources(Seq<char>),
    Receive(ReceiveRequestView),
    Send(SendRequestView<A>),
    Delete(DeleteRequestView),
    Pause(u64),
    Stop,
}

impl<A> View for Action<A> {
    type V = ActionView<A>;

    open spec fn view(&self) -> ActionView<A> {
        match self {
            Action::ResolveName(name) => ActionView::ResolveName(name@),
            Action::ListSources(dlq) => ActionView::ListSources(dlq@),
            Action::Receive(request) => ActionView::Receive(request@),
            Action::Send(request) => ActionView::Send(request@),
            Action::Delete(request) => ActionView::Delete(request@),
            Action::Pause(millis) => ActionView::Pause(*millis),
            Action::Stop => ActionView::Stop,
        }
    }
}

impl<A> ActionView<A> {
    /// Whether the action touches a message: a receive, a send or a delete.
    pub open spec fn touches_messages(self) -> bool {
        self is Receive || self is Send || self is Delete
    }
}

/// What came of the action the engine asked for last.
#[derive(Debug, PartialEq, Eq)]
pub enum Event<A> {
    /// The answer to [`Action::ResolveName`].
    NameResolved(NameReply),
    /// The answer to [`Action::ListSources`].
    SourcesListed(SourcesReply),
    /// The answer to [`Action::Receive`]: a message, or none when the queue
    /// had nothing to give.
    Received(Result<Option<Message<A>>, TransportError>),
    /// The answer to [`Action::Send`].
    Sent(Result<(), TransportError>),
    /// The answer to [`Action::Delete`].
    Deleted(Result<(), TransportError>),
    /// The wait asked for by [`Action::Pause`] is over.
    Paused,
}

/// An [`Event`] as text.
pub enum EventView<A> {
    NameResolved(Result<Option<Seq<char>>, TransportError>),
    SourcesListed(Result<Seq<Seq<char>>, TransportError>),
    Received(Result<Option<MessageView<A>>, TransportError>),
    Sent(Result<(), TransportError>),
    Deleted(Result<(), TransportError>),
    Paused,
}

impl<A> View for Event<A> {
    type V = EventView<A>;

    open spec fn view(&self) -> EventView<A> {
        match self {
            Event::NameResolved(reply) => EventView::NameResolved(name_reply_view(*reply)),
            Event::SourcesListed(reply) => EventView::SourcesListed(sources_reply_view(*reply)),
            Event::Received(Ok(message)) => EventView::Received(Ok(message.deep_view())),
            Event::Received(Err(e)) => EventView::Received(Err(*e)),
            Event::Sent(outcome) => EventView::Sent(*outcome),
            Event::Deleted(outcome) => EventView::Deleted(*outcome),
            Event::Paused => EventView::Paused,
        }
    }
}

} // verus!
