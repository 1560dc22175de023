//! A named-address message bus: components register under a name, receive
//! through a bounded mailbox, send to each other by name, and subscribe to
//! events that other components broadcast.

mod common;
mod error;
mod message;
mod registry;

pub use common::{valid_name, BusName, BusReceiver, BusSender, Event, EventId, SendAttempt, MAILBOX_CAPACITY};
pub use error::Error;
pub use message::{Message, MessagePayload, Received};
pub use registry::{
    after_subscribe, lemma_name_is_exclusive, lemma_released_name_is_free, lemma_subscribe_is_local,
    lemma_subscribers_are_listeners, listeners_of, register_succeeds, Registry,
};

pub mod session;
