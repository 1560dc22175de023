//! State of one published stream: who watches it, and the headers that a
//! late watcher needs before it can decode the stream.

use vstd::prelude::*;

verus! {

#[verifier::external_type_specification]
#[verifier::external_body]
#[verifier::reject_recursive_types(T)]
pub struct ExUnboundedSender<T>(tokio::sync::mpsc::UnboundedSender<T>);

#[verifier::external_type_specification]
#[verifier::external_body]
#[verifier::reject_recursive_types(T)]
pub struct ExUnboundedReceiver<T>(tokio::sync::mpsc::UnboundedReceiver<T>);

/// Relies on tokio's `UnboundedSender::clone`: the clone is a handle on the
/// very same channel.
pub assume_specification<T>[ <tokio::sync::mpsc::UnboundedSender<T> as Clone>::clone ](
    s: &tokio::sync::mpsc::UnboundedSender<T>,
) -> (r: tokio::sync::mpsc::UnboundedSender<T>)
    ensures
        r == *s,
;

/// Relies on tokio's `UnboundedSender::send`, which fails only when the
/// receiver is gone; `true` when the message was queued.
#[verifier::external_body]
fn send_unbounded(tx: &WatcherSender, msg: Message) -> bool {
    tx.send(msg).is_ok()
}

/// Relies on chrono's `From<SystemTime> for DateTime<Utc>`, which also
/// takes clock readings before the Unix epoch (it fails only on a reading
/// outside chrono's range of about 262,000 years around year 0), and
/// `DateTime::timestamp_millis`: the wall clock, in milliseconds since the
/// Unix epoch.
#[verifier::external_body]
fn now_millis() -> i64 {
    chrono::DateTime::<chrono::Utc>::from(std::time::SystemTime::now()).timestamp_millis()
}

/// Kind of a media packet.
#[derive(Debug, Clone, Copy, PartialEq, Eq)]
pub enum PacketType {
    Meta,
    Video,
    Audio,
}

/// A media packet: its kind, its time stamp in milliseconds where it has
/// one, and its bytes.
#[derive(Debug, Clone)]
pub struct Packet {
    pub kind: PacketType,
    pub timestamp: Option<u32>,
    pub payload: Vec<u8>,
}

/// What a session hands to its watchers.
#[derive(Clone)]
pub enum Message {
    Packet(Packet),
    Disconnect,
}

/// Send side of a watcher's channel.
pub type WatcherSender = tokio::sync::mpsc::UnboundedSender<Message>;

/// Receive side of a watcher's channel.
pub type WatcherReceiver = tokio::sync::mpsc::UnboundedReceiver<Message>;

/// The items of `s` whose flag in `ok` is set, in their order.
pub open spec fn keep_where<T>(s: Seq<T>, ok: Seq<bool>) -> Seq<T>
    decreases s.len(),
{
    if s.len() == 0 {
        Seq::empty()
    } else {
        let prefix = keep_where(s.drop_last(), ok.take(s.len() - 1));
        if ok[s.len() - 1] {
            prefix.push(s.last())
        } else {
            prefix
        }
    }
}

pub struct Session {
    pub watchers: Vec<WatcherSender>,
    /// Payload of the first metadata packet.
    pub metadata: Option<Vec<u8>>,
    pub video_seq_header: Option<Vec<u8>>,
    pub audio_seq_header: Option<Vec<u8>>,
    /// When publishing started, in milliseconds since the Unix epoch.
    pub publish_start: i64,
}

impl Session {
    /// A session without watchers or cached headers, started now.
    pub fn new() -> (r: Session)
        ensures
            r.watchers@.len() == 0,
            r.metadata is None,
            r.video_seq_header is None,
            r.audio_seq_header is None,
    {
        Session {
            watchers: Vec::new(),
            metadata: None,
            video_seq_header: None,
            audio_seq_header: None,
            publish_start: now_millis(),
        }
    }

    pub fn add_watcher(&mut self, sender: WatcherSender)
        ensures
            final(self).watchers@ == old(self).watchers@.push(sender),
            final(self).metadata == old(self).metadata,
            final(self).video_seq_header == old(self).video_seq_header,
            final(self).audio_seq_header == old(self).audio_seq_header,
            final(self).publish_start == old(self).publish_start,
    {
        self.watchers.push(sender);
    }

    /// Keeps the payload of the first packet of each kind: later packets of
    /// a kind whose header is cached change nothing.
    pub fn set_cache(&mut self, packet: Packet)
        ensures
            final(self).watchers == old(self).watchers,
            final(self).publish_start == old(self).publish_start,
            final(self).metadata == (if packet.kind == PacketType::Meta && old(self).metadata is None {
                Some(packet.payload)
            } else {
                old(self).metadata
            }),
            final(self).video_seq_header == (if packet.kind == PacketType::Video
                && old(self).video_seq_header is None {
                Some(packet.payload)
            } else {
                old(self).video_seq_header
            }),
            final(self).audio_seq_header == (if packet.kind == PacketType::Audio
                && old(self).audio_seq_header is None {
                Some(packet.payload)
            } else {
                old(self).audio_seq_header
            }),
    {
        match packet.kind {
            PacketType::Meta => {
                if self.metadata.is_none() {
                    self.metadata = Some(packet.payload);
                }
            },
            PacketType::Video => {
                if self.video_seq_header.is_none() {
                    self.video_seq_header = Some(packet.payload);
                }
            },
            PacketType::Audio => {
                if self.audio_seq_header.is_none() {
                    self.audio_seq_header = Some(packet.payload);
                }
            },
        }
    }

    /// Hands a copy of `message` to every watcher, in order, and drops the
    /// watchers whose receiver is gone, keeping the others in order. The
    /// result says, watcher by watcher, whether the message was queued.
    pub fn send_to_watchers(&mut self, message: Message) -> (delivered: Vec<bool>)
        ensures
            delivered@.len() == old(self).watchers@.len(),
            final(self).watchers@ == keep_where(old(self).watchers@, delivered@),
            final(self).metadata == old(self).metadata,
            final(self).video_seq_header == old(self).video_seq_header,
            final(self).audio_seq_header == old(self).audio_seq_header,
            final(self).publish_start == old(self).publish_start,
    {
        let mut delivered: Vec<bool> = Vec::new();
        let mut i: usize = 0;
        while i < self.watchers.len()
            invariant
                i <= self.watchers@.len(),
                delivered@.len() == i,
            decreases self.watchers@.len() - i,
        {
            delivered.push(send_unbounded(&self.watchers[i], message.clone()));
            i = i + 1;
        }
        self.watchers = keep_delivered(&self.watchers, &delivered);
        delivered
    }
}

/// The watchers whose flag in `delivered` is set, in their order.
pub fn keep_delivered(watchers: &Vec<WatcherSender>, delivered: &Vec<bool>) -> (r: Vec<WatcherSender>)
    requires
        delivered@.len() == watchers@.len(),
    ensures
        r@ == keep_where(watchers@, delivered@),
{
    let mut kept: Vec<WatcherSender> = Vec::new();
    let mut i: usize = 0;
    while i < watchers.len()
        invariant
            i <= watchers@.len(),
            delivered@.len() == watchers@.len(),
            kept@ == keep_where(watchers@.take(i as int), delivered@.take(i as int)),
        decreases watchers@.len() - i,
    {
        let ghost before = watchers@.take(i as int);
        if delivered[i] {
            kept.push(watchers[i].clone());
        }
        proof {
            let next = watchers@.take(i + 1);
            assert(next.drop_last() =~= before);
            assert(delivered@.take(i + 1).take(i as int) =~= delivered@.take(i as int));
        }
        i = i + 1;
    }
    proof {
        assert(watchers@.take(i as int) =~= watchers@);
        assert(delivered@.take(i as int) =~= delivered@);
    }
    kept
}

} // verus!
