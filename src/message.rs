use vstd::prelude::*;

use crate::common::BusName;
use crate::error::Error;

verus! {

/// The bincode encoding of a text.
pub uninterp spec fn bincode_text(s: Seq<char>) -> Seq<u8>;

/// What bincode decodes a text from: `None` where the bytes are no encoding
/// of a text.
pub uninterp spec fn bincode_text_decoded(b: Seq<u8>) -> Option<Seq<char>>;

/// Relies on `bincode::serialize` (default configuration) on a `str`, which
/// cannot fail: the options set no size limit and the writer is a `Vec`.
#[verifier::external_body]
fn encode_text(s: &str) -> (r: Option<Vec<u8>>)
    ensures
        r is Some,
        r is Some ==> r.unwrap()@ == bincode_text(s@),
{
    bincode::serialize(s).ok()
}

/// Relies on `bincode::deserialize` into a `String`: the bytes that encode a
/// text decode to that text.
#[verifier::external_body]
fn decode_text(b: &[u8]) -> (r: Option<String>)
    ensures
        (r is Some) == (bincode_text_decoded(b@) is Some),
        r is Some ==> Some(r.unwrap()@) == bincode_text_decoded(b@),
        forall|s: Seq<char>| #[trigger] bincode_text(s) == b@ ==> r is Some && r.unwrap()@ == s,
{
    bincode::deserialize::<String>(b).ok()
}

/// Content of a message.
#[derive(Debug, Clone, PartialEq)]
pub enum MessagePayload {
    /// Liveness probe; never handed to a component.
    Ping,
    /// Opaque bytes.
    Bytes(Vec<u8>),
}

impl MessagePayload {
    /// The bytes carried, or `None` for a probe.
    pub open spec fn bytes_view(&self) -> Option<Seq<u8>> {
        match self {
            MessagePayload::Ping => None,
            MessagePayload::Bytes(b) => Some(b@),
        }
    }

    pub fn is_ping(&self) -> (r: bool)
        ensures
            r == (*self is Ping),
    {
        match self {
            MessagePayload::Ping => true,
            MessagePayload::Bytes(_) => false,
        }
    }
}

impl From<Vec<u8>> for MessagePayload {
    fn from(val: Vec<u8>) -> (r: MessagePayload) {
        MessagePayload::Bytes(val)
    }
}

impl vstd::std_specs::convert::FromSpecImpl<Vec<u8>> for MessagePayload {
    open spec fn obeys_from_spec() -> bool {
        true
    }

    open spec fn from_spec(val: Vec<u8>) -> MessagePayload {
        MessagePayload::Bytes(val)
    }
}

/// A message envelope.
#[derive(Debug, Clone)]
pub struct Message {
    pub origin: Option<BusName>,
    pub target: Option<BusName>,
    pub payload: MessagePayload,
}

impl Message {
    /// A message whose payload is the bincode encoding of `payload`.
    pub fn new(target: Option<BusName>, payload: &str) -> (r: Message)
        ensures
            r.target == target,
            r.origin is None,
            r.payload.bytes_view() == Some(bincode_text(payload@)),
    {
        let b = encode_text(payload).unwrap();
        Message { target, payload: MessagePayload::Bytes(b), origin: None }
    }

    /// A message that carries `payload` as it is.
    pub fn new_raw(target: Option<BusName>, payload: MessagePayload) -> (r: Message)
        ensures
            r.target == target,
            r.origin is None,
            r.payload == payload,
    {
        Message { target, payload, origin: None }
    }

    /// The liveness probe.
    pub fn ping() -> (r: Message)
        ensures
            r.target is None,
            r.origin is None,
            r.payload is Ping,
    {
        Message { target: None, payload: MessagePayload::Ping, origin: None }
    }

    /// Decodes the payload as a bincode text; a probe, or bytes that do not
    /// decode, give `MessageUnpackFailed`.
    pub fn unpack(&self) -> (r: Result<String, Error>)
        ensures
            self.payload is Ping ==> r == Err::<String, Error>(Error::MessageUnpackFailed),
            self.payload matches MessagePayload::Bytes(b) ==> (bincode_text_decoded(b@) is None <==> r
                == Err::<String, Error>(Error::MessageUnpackFailed)),
            self.payload matches MessagePayload::Bytes(b) ==> (bincode_text_decoded(b@) matches Some(t) ==> (r
                matches Ok(u) && u@ == t)),
            forall|s: Seq<char>|
                #![trigger bincode_text(s)]
                self.payload.bytes_view() == Some(bincode_text(s)) ==> (r matches Ok(t) && t@ == s),
    {
        match &self.payload {
            MessagePayload::Bytes(b) => match decode_text(b.as_slice()) {
                Some(t) => Ok(t),
                None => Err(Error::MessageUnpackFailed),
            },
            MessagePayload::Ping => Err(Error::MessageUnpackFailed),
        }
    }

    /// A message from `origin` to `target` that carries `payload` as it is.
    pub fn from_member(origin: BusName, target: BusName, payload: MessagePayload) -> (r: Message)
        ensures
            r.origin == Some(origin),
            r.target == Some(target),
            r.payload == payload,
    {
        Message { origin: Some(origin), target: Some(target), payload }
    }

    /// What a receiver does with what its mailbox gave: a closed mailbox ends
    /// the wait, a probe is dropped, anything else is handed over.
    pub fn screen(received: Option<Message>) -> (r: Received)
        ensures
            received is None ==> r is Closed,
            received matches Some(m) ==> (m.payload is Ping ==> r is Skipped),
            received matches Some(m) ==> (!(m.payload is Ping) ==> r == Received::Delivered(m)),
            r matches Received::Delivered(m) ==> !(m.payload is Ping),
    {
        match received {
            None => Received::Closed,
            Some(m) => if m.payload.is_ping() {
                Received::Skipped
            } else {
                Received::Delivered(m)
            },
        }
    }
}

/// Outcome of one receive on a mailbox, once probes are screened out.
pub enum Received {
    /// The mailbox is closed: every send side is gone.
    Closed,
    /// A liveness probe arrived; the receiver keeps waiting.
    Skipped,
    /// A message for the component.
    Delivered(Message),
}

} // verus!
