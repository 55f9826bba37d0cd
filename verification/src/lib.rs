//! Replays the messages of a dead-letter queue onto the queue they came from.
//!
//! The library decides; it never talks to a queue service itself. A driver
//! performs each [`Action`] the engine hands out and reports what came back as
//! an [`Event`]; [`step`] then says what to do next. Everything the engine
//! promises is stated over `engine::transition`. The laws proved from it
//! are in [`trace`] (what holds of every run), [`drain`] (a replay that
//! nothing disturbs empties the queue) and [`conservation`] (no message is
//! ever lost).

pub mod error;
pub mod message;
pub mod resolver;
pub mod protocol;
pub mod engine;
pub mod trace;
pub mod model;
pub mod drain;
pub mod conservation;

pub use error::ReplayError;
pub use error::TransportError;
pub use engine::begin;
pub use engine::replay;
pub use engine::step;
pub use engine::Session;
pub use engine::Stage;
pub use engine::State;
pub use engine::DEFAULT_DELAY_MILLIS;
pub use message::receive_one;
pub use message::Message;
pub use protocol::Action;
pub use protocol::DeleteRequest;
pub use protocol::Event;
pub use protocol::ReceiveRequest;
pub use protocol::SendRequest;
pub use resolver::lookup_dlq_source_url;
pub use resolver::lookup_url;
pub use resolver::QueueAddress;
