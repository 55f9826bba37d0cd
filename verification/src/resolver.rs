//! From a queue name to its address, and from a dead-letter queue to the
//! one queue that feeds it.

use vstd::prelude::*;
use crate::error::ReplayError;
use crate::error::TransportError;

verus! {

/// What a name lookup answers: the address, none if the service knows no
/// such queue, or a failure to ask.
pub type NameReply = Result<Option<String>, TransportError>;

/// What a listing of source queues answers: the addresses of every queue
/// that redirects into the dead-letter queue, or a failure to ask.
pub type SourcesReply = Result<Vec<String>, TransportError>;

/// A [`NameReply`] as text.
pub open spec fn name_reply_view(reply: NameReply) -> Result<Option<Seq<char>>, TransportError> {
    match reply {
        Ok(found) => Ok(found.deep_view()),
        Err(e) => Err(e),
    }
}

/// A [`SourcesReply`] as text.
pub open spec fn sources_reply_view(reply: SourcesReply) -> Result<Seq<Seq<char>>, TransportError> {
    match reply {
        Ok(sources) => Ok(sources.deep_view()),
        Err(e) => Err(e),
    }
}

/// The address of a queue.
///
/// Addresses are not made up: the only way to one is to resolve what the
/// queue service answered, with [`lookup_url`] or
/// [`lookup_dlq_source_url`]. Its view is the address as text.
#[derive(Clone, Debug, PartialEq, Eq)]
pub struct QueueAddress {
    url: String,
}

impl View for QueueAddress {
    type V = Seq<char>;

    closed spec fn view(&self) -> Seq<char> {
        self.url@
    }
}

impl QueueAddress {
    /// The address as the queue service wants it in a request.
    pub fn url(&self) -> (url: String)
        ensures
            url@ == self@,
    {
        self.url.clone()
    }

    /// The address, to look at.
    pub fn as_str(&self) -> (url: &str)
        ensures
            url@ == self@,
    {
        self.url.as_str()
    }
}

/// A resolved address, or the reason there is none, as text.
pub open spec fn address_view(address: Result<QueueAddress, ReplayError>) -> Result<
    Seq<char>,
    ReplayError,
> {
    match address {
        Ok(found) => Ok(found@),
        Err(e) => Err(e),
    }
}

/// The address a name resolves to: the one the service found. A name the
/// service does not know and a lookup that could not be made both fail.
pub open spec fn address_of(reply: Result<Option<Seq<char>>, TransportError>) -> Result<
    Seq<char>,
    ReplayError,
> {
    match reply {
        Ok(Some(url)) => Ok(url),
        _ => Err(ReplayError::LookupFailed),
    }
}

/// The queue that feeds a dead-letter queue: the only one listed. Replay
/// is undefined for a dead-letter queue with several sources, so that is
/// refused, as is one with none.
pub open spec fn source_of(reply: Result<Seq<Seq<char>>, TransportError>) -> Result<
    Seq<char>,
    ReplayError,
> {
    match reply {
        Err(_) => Err(ReplayError::LookupFailed),
        Ok(sources) => if sources.len() == 0 {
            Err(ReplayError::NoSourceFound)
        } else if sources.len() == 1 {
            Ok(sources[0])
        } else {
            Err(ReplayError::AmbiguousSource)
        },
    }
}

/// Resolves the answer to a name lookup into the queue's address.
pub fn lookup_url(reply: NameReply) -> (address: Result<QueueAddress, ReplayError>)
    ensures
        address_view(address) == address_of(name_reply_view(reply)),
{
    match reply {
        Ok(Some(url)) => Ok(QueueAddress { url }),
        _ => Err(ReplayError::LookupFailed),
    }
}

/// Resolves the answer to a source listing into the address of the single
/// source queue.
pub fn lookup_dlq_source_url(reply: SourcesReply) -> (address: Result<QueueAddress, ReplayError>)
    ensures
        address_view(address) == source_of(sources_reply_view(reply)),
{
    match reply {
        Err(_) => Err(ReplayError::LookupFailed),
        Ok(mut sources) => {
            let count: usize = sources.len();
            if count == 0 {
                Err(ReplayError::NoSourceFound)
            } else if count > 1 {
                Err(ReplayError::AmbiguousSource)
            } else {
                Ok(QueueAddress { url: sources.remove(0) })
            }
        },
    }
}

} // verus!
