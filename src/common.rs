use vstd::prelude::*;

use crate::error::Error;
use crate::message::Message;

verus! {

/// Number of messages a mailbox holds before senders have to wait.
pub const MAILBOX_CAPACITY: usize = 16;

#[verifier::external_type_specification]
#[verifier::external_body]
#[verifier::reject_recursive_types(T)]
pub struct ExSender<T>(tokio::sync::mpsc::Sender<T>);

#[verifier::external_type_specification]
#[verifier::external_body]
#[verifier::reject_recursive_types(T)]
pub struct ExReceiver<T>(tokio::sync::mpsc::Receiver<T>);

/// Relies on tokio's `Sender::clone`: the clone is a handle on the very same
/// channel, so the two handles are interchangeable.
pub assume_specification<T>[ <tokio::sync::mpsc::Sender<T> as Clone>::clone ](
    s: &tokio::sync::mpsc::Sender<T>,
) -> (r: tokio::sync::mpsc::Sender<T>)
    ensures
        r == *s,
;

/// Send side of a mailbox.
pub type BusSender = tokio::sync::mpsc::Sender<Message>;

/// Receive side of a mailbox, owned by the registered component.
pub type BusReceiver = tokio::sync::mpsc::Receiver<Message>;

/// Relies on tokio's `mpsc::channel`: a fresh bounded channel of `capacity`
/// slots, which panics on a zero capacity or one above the semaphore's
/// `MAX_PERMITS` (`usize::MAX >> 3`, at least `0x1fff_ffff` on every target).
#[verifier::external_body]
pub(crate) fn bus_channel(capacity: usize) -> (BusSender, BusReceiver)
    requires
        0 < capacity <= 0x1fff_ffff,
{
    tokio::sync::mpsc::channel(capacity)
}

/// What became of a message offered to a mailbox without waiting.
pub enum SendAttempt {
    /// Queued in the mailbox.
    Sent,
    /// Handed back: the mailbox holds as many messages as it can.
    Full(Message),
    /// Handed back: the mailbox's receive side is gone.
    Closed(Message),
}

impl SendAttempt {
    /// Whether the attempt shows a receiver still holding the mailbox: a
    /// full mailbox has one as much as one that took the message.
    pub fn receiver_alive(&self) -> (r: bool)
        ensures
            r == !(*self is Closed),
    {
        match self {
            SendAttempt::Sent => true,
            SendAttempt::Full(_) => true,
            SendAttempt::Closed(_) => false,
        }
    }
}

/// Relies on tokio's `Sender::try_send`: the message is queued, or handed
/// back unchanged because the channel is full or its receiver was dropped.
#[verifier::external_body]
pub(crate) fn try_send(tx: &BusSender, msg: Message) -> (r: SendAttempt)
    ensures
        r matches SendAttempt::Full(m) ==> m == msg,
        r matches SendAttempt::Closed(m) ==> m == msg,
{
    match tx.try_send(msg) {
        Ok(()) => SendAttempt::Sent,
        Err(tokio::sync::mpsc::error::TrySendError::Full(m)) => SendAttempt::Full(m),
        Err(tokio::sync::mpsc::error::TrySendError::Closed(m)) => SendAttempt::Closed(m),
    }
}

/// Identifier of an event inside the namespace of the address that declares it.
pub type EventId = String;

/// A validated address name: a non-empty string.
#[derive(Debug, Clone, Hash, PartialEq, Eq)]
pub struct BusName(String);

/// Whether a string is acceptable as an address name.
pub open spec fn valid_name(s: Seq<char>) -> bool {
    s.len() > 0
}

impl View for BusName {
    type V = Seq<char>;

    closed spec fn view(&self) -> Seq<char> {
        self.0@
    }
}

impl BusName {
    /// A well-formed name has a valid text; the constructors only make such names.
    pub open spec fn wf(&self) -> bool {
        valid_name(self@)
    }

    /// Validates `value` and wraps it as a name.
    pub fn from_string(value: String) -> (r: Result<BusName, Error>)
        ensures
            valid_name(value@) ==> (r matches Ok(n) && n@ == value@),
            !valid_name(value@) ==> r == Err::<BusName, Error>(Error::InvalidBusName),
    {
        if value.as_str().is_empty() {
            Err(Error::InvalidBusName)
        } else {
            Ok(BusName(value))
        }
    }

    /// Validates `value` and copies it into a name.
    pub fn from_str(value: &str) -> (r: Result<BusName, Error>)
        ensures
            valid_name(value@) ==> (r matches Ok(n) && n@ == value@),
            !valid_name(value@) ==> r == Err::<BusName, Error>(Error::InvalidBusName),
    {
        BusName::from_string(value.to_owned())
    }

    /// The name's text.
    pub fn as_str(&self) -> (r: &str)
        ensures
            r@ == self@,
    {
        self.0.as_str()
    }

    /// The name's text, as an owned string.
    pub fn to_string(&self) -> (r: String)
        ensures
            r@ == self@,
    {
        self.0.clone()
    }

    /// Compares two names by their text.
    pub fn same(&self, other: &BusName) -> (r: bool)
        ensures
            r == (self@ == other@),
    {
        self.0 == other.0
    }

    /// A copy of the name.
    pub fn copy(&self) -> (r: BusName)
        ensures
            r@ == self@,
    {
        BusName(self.0.clone())
    }
}

/// An event: a topic `id` declared by the address `origin`.
#[derive(Debug, Clone, Hash, PartialEq, Eq)]
pub struct Event {
    pub origin: BusName,
    pub id: EventId,
}

impl View for Event {
    type V = (Seq<char>, Seq<char>);

    open spec fn view(&self) -> (Seq<char>, Seq<char>) {
        (self.origin@, self.id@)
    }
}

impl Event {
    pub fn new(origin: BusName, id: String) -> (r: Event)
        ensures
            r@ == (origin@, id@),
    {
        Event { origin, id }
    }

    /// Compares two events by origin and id.
    pub fn same(&self, other: &Event) -> (r: bool)
        ensures
            r == (self@ == other@),
    {
        self.origin.same(&other.origin) && self.id == other.id
    }
}

} // verus!
