use vstd::prelude::*;

use crate::common::{bus_channel, try_send, BusName, BusReceiver, BusSender, Event, SendAttempt, MAILBOX_CAPACITY};
use crate::message::Message;
use crate::error::Error;

verus! {

/// Listeners of event `e` in the subscription table `subs`; none where the
/// event has never been subscribed to.
pub open spec fn listeners_of(subs: Map<(Seq<char>, Seq<char>), Seq<BusSender>>, e: (Seq<char>, Seq<char>)) -> Seq<BusSender> {
    if subs.contains_key(e) {
        subs[e]
    } else {
        Seq::empty()
    }
}

/// The subscription table once `s` has been appended to the listeners of `e`.
pub open spec fn after_subscribe(
    subs: Map<(Seq<char>, Seq<char>), Seq<BusSender>>,
    e: (Seq<char>, Seq<char>),
    s: BusSender,
) -> Map<(Seq<char>, Seq<char>), Seq<BusSender>> {
    subs.insert(e, listeners_of(subs, e).push(s))
}

/// Whether registering `name` over the address table `members` succeeds, given
/// whether the mailbox already held under `name` still has a receiver.
pub open spec fn register_succeeds(members: Map<Seq<char>, BusSender>, name: Seq<char>, live: bool) -> bool {
    !members.contains_key(name) || !live
}

/// A registered name stays taken for as long as its mailbox is live: once
/// `name` maps to a mailbox, registering `name` again while that mailbox has
/// a receiver fails.
pub proof fn lemma_name_is_exclusive(members: Map<Seq<char>, BusSender>, name: Seq<char>, tx: BusSender)
    ensures
        !register_succeeds(members.insert(name, tx), name, true),
{
}

/// A released name can be registered again, whatever became of its old mailbox.
pub proof fn lemma_released_name_is_free(members: Map<Seq<char>, BusSender>, name: Seq<char>, live: bool)
    ensures
        register_succeeds(members.remove(name), name, live),
{
}

/// Every subscriber of an event is among its listeners, after the earlier
/// ones and in order of subscription: two subscriptions to `e`, by `a` and
/// then by `b`, make both listeners of `e`.
pub proof fn lemma_subscribers_are_listeners(
    subs: Map<(Seq<char>, Seq<char>), Seq<BusSender>>,
    e: (Seq<char>, Seq<char>),
    a: BusSender,
    b: BusSender,
)
    ensures
        listeners_of(after_subscribe(after_subscribe(subs, e, a), e, b), e) == listeners_of(subs, e).push(a).push(
            b,
        ),
        listeners_of(after_subscribe(after_subscribe(subs, e, a), e, b), e).contains(a),
        listeners_of(after_subscribe(after_subscribe(subs, e, a), e, b), e).contains(b),
{
    let l = listeners_of(after_subscribe(after_subscribe(subs, e, a), e, b), e);
    let n: int = listeners_of(subs, e).len() as int;
    assert(l[n] == a);
    assert(l[n + 1] == b);
}

/// Subscribing to one event leaves the listeners of every other event as they were.
pub proof fn lemma_subscribe_is_local(
    subs: Map<(Seq<char>, Seq<char>), Seq<BusSender>>,
    e: (Seq<char>, Seq<char>),
    other: (Seq<char>, Seq<char>),
    s: BusSender,
)
    requires
        other != e,
    ensures
        listeners_of(after_subscribe(subs, e, s), other) == listeners_of(subs, other),
{
}

/// The address table and the event subscriptions of one bus.
///
/// Both tables are vectors with one entry per key. vstd specifies std's hash
/// maps only for keys that obey its key model, which a name or an event
/// (strings, with derived `Eq` and `Hash` that Verus does not read) does not.
/// So the tables are kept as vectors and the invariant `wf` states what a map
/// would give for free: each key at most once, and the ghost maps mirror the
/// entries.
pub struct Registry {
    members: Vec<(BusName, BusSender)>,
    events: Vec<(Event, Vec<BusSender>)>,
    members_map: Ghost<Map<Seq<char>, BusSender>>,
    events_map: Ghost<Map<(Seq<char>, Seq<char>), Seq<BusSender>>>,
}

impl Registry {
    /// Live addresses: name to the send side of its mailbox.
    pub closed spec fn members(&self) -> Map<Seq<char>, BusSender> {
        self.members_map@
    }

    /// Event to the send sides of its listeners, in order of subscription.
    pub closed spec fn subscriptions(&self) -> Map<(Seq<char>, Seq<char>), Seq<BusSender>> {
        self.events_map@
    }

    /// Each table holds one entry per key, and the ghost maps are what the tables hold.
    pub closed spec fn wf(&self) -> bool {
        &&& forall|i: int|
            0 <= i < self.members@.len() ==> {
                &&& self.members_map@.contains_key(#[trigger] self.members@[i].0@)
                &&& self.members_map@[self.members@[i].0@] == self.members@[i].1
            }
        &&& forall|k: Seq<char>|
            #[trigger] self.members_map@.contains_key(k) ==> exists|i: int|
                0 <= i < self.members@.len() && #[trigger] self.members@[i].0@ == k
        &&& forall|i: int, j: int|
            0 <= i < self.members@.len() && 0 <= j < self.members@.len() && i != j
                ==> #[trigger] self.members@[i].0@ != #[trigger] self.members@[j].0@
        &&& forall|i: int|
            0 <= i < self.events@.len() ==> {
                &&& self.events_map@.contains_key(#[trigger] self.events@[i].0@)
                &&& self.events_map@[self.events@[i].0@] == self.events@[i].1@
            }
        &&& forall|k: (Seq<char>, Seq<char>)|
            #[trigger] self.events_map@.contains_key(k) ==> exists|i: int|
                0 <= i < self.events@.len() && #[trigger] self.events@[i].0@ == k
        &&& forall|i: int, j: int|
            0 <= i < self.events@.len() && 0 <= j < self.events@.len() && i != j
                ==> #[trigger] self.events@[i].0@ != #[trigger] self.events@[j].0@
    }

    /// An empty registry.
    pub fn new() -> (r: Registry)
        ensures
            r.wf(),
            r.members() == Map::<Seq<char>, BusSender>::empty(),
            r.subscriptions() == Map::<(Seq<char>, Seq<char>), Seq<BusSender>>::empty(),
    {
        Registry {
            members: Vec::new(),
            events: Vec::new(),
            members_map: Ghost(Map::empty()),
            events_map: Ghost(Map::empty()),
        }
    }

    fn find_member(&self, name: &BusName) -> (r: Option<usize>)
        requires
            self.wf(),
        ensures
            r matches Some(i) ==> i < self.members@.len() && self.members@[i as int].0@ == name@,
            r is None ==> !self.members().contains_key(name@),
    {
        let mut i: usize = 0;
        while i < self.members.len()
            invariant
                i <= self.members@.len(),
                forall|j: int| 0 <= j < i ==> self.members@[j].0@ != name@,
            decreases self.members@.len() - i,
        {
            if self.members[i].0.same(name) {
                return Some(i);
            }
            i = i + 1;
        }
        None
    }

    fn find_event(&self, event: &Event) -> (r: Option<usize>)
        requires
            self.wf(),
        ensures
            r matches Some(i) ==> i < self.events@.len() && self.events@[i as int].0@ == event@,
            r is None ==> !self.subscriptions().contains_key(event@),
    {
        let mut i: usize = 0;
        while i < self.events.len()
            invariant
                i <= self.events@.len(),
                forall|j: int| 0 <= j < i ==> self.events@[j].0@ != event@,
            decreases self.events@.len() - i,
        {
            if self.events[i].0.same(event) {
                return Some(i);
            }
            i = i + 1;
        }
        None
    }

    /// Allocates a mailbox for `name` if the name is free, keeping its send
    /// side and handing back the receive side; a taken name gives `AddressInUse`.
    pub fn register(&mut self, name: BusName) -> (r: Result<BusReceiver, Error>)
        requires
            old(self).wf(),
        ensures
            final(self).wf(),
            final(self).subscriptions() == old(self).subscriptions(),
            old(self).members().contains_key(name@) ==> r == Err::<BusReceiver, Error>(Error::AddressInUse)
                && final(self).members() == old(self).members(),
            !old(self).members().contains_key(name@) ==> r is Ok && final(self).members() == old(
                self,
            ).members().insert(name@, final(self).members()[name@]),
    {
        match self.find_member(&name) {
            Some(_) => Err(Error::AddressInUse),
            None => {
                let (tx, rx) = bus_channel(MAILBOX_CAPACITY);
                let ghost key = name@;
                let ghost old_self = *self;
                self.members.push((name, tx));
                self.members_map = Ghost(self.members_map@.insert(key, tx));
                proof {
                    let n = self.members@.len() - 1;
                    assert forall|k: Seq<char>| #[trigger] self.members_map@.contains_key(k) implies exists|i: int|
                        0 <= i < self.members@.len() && #[trigger] self.members@[i].0@ == k by {
                        if k == key {
                            assert(self.members@[n].0@ == k);
                        } else {
                            assert(old_self.members_map@.contains_key(k));
                            let i = choose|i: int| 0 <= i < old_self.members@.len() && #[trigger] old_self.members@[i].0@ == k;
                            assert(self.members@[i].0@ == k);
                        }
                    }
                    assert forall|i: int|
                        0 <= i < self.members@.len() implies {
                            &&& self.members_map@.contains_key(#[trigger] self.members@[i].0@)
                            &&& self.members_map@[self.members@[i].0@] == self.members@[i].1
                        } by {
                        if i < n {
                            assert(self.members@[i] == old_self.members@[i]);
                            assert(old_self.members_map@.contains_key(old_self.members@[i].0@));
                        }
                    }
                    assert forall|i: int, j: int|
                        0 <= i < self.members@.len() && 0 <= j < self.members@.len() && i != j
                        implies #[trigger] self.members@[i].0@ != #[trigger] self.members@[j].0@ by {
                        if i < n && j < n {
                            assert(self.members@[i] == old_self.members@[i]);
                            assert(self.members@[j] == old_self.members@[j]);
                        } else if i < n {
                            assert(old_self.members_map@.contains_key(old_self.members@[i].0@));
                        } else {
                            assert(old_self.members_map@.contains_key(old_self.members@[j].0@));
                        }
                    }
                    assert(self.events@ == old_self.events@);
                    assert(self.wf());
                }
                Ok(rx)
            },
        }
    }

    /// Forgets `name`; a name that is not registered is no error.
    pub fn unregister(&mut self, name: &BusName)
        requires
            old(self).wf(),
        ensures
            final(self).wf(),
            final(self).members() == old(self).members().remove(name@),
            final(self).subscriptions() == old(self).subscriptions(),
    {
        match self.find_member(name) {
            None => {
                assert(self.members_map@.remove(name@) =~= self.members_map@);
            },
            Some(idx) => {
                let ghost key = name@;
                let ghost old_self = *self;
                let _ = self.members.remove(idx);
                self.members_map = Ghost(self.members_map@.remove(key));
                proof {
                    let o = old_self.members@;
                    let m = self.members@;
                    assert forall|i: int| 0 <= i < m.len() implies #[trigger] m[i] == (if i < idx {
                        o[i]
                    } else {
                        o[i + 1]
                    }) by {}
                    assert forall|k: Seq<char>| #[trigger] self.members_map@.contains_key(k) implies exists|i: int|
                        0 <= i < m.len() && #[trigger] m[i].0@ == k by {
                        assert(old_self.members_map@.contains_key(k));
                        let j = choose|j: int| 0 <= j < o.len() && #[trigger] o[j].0@ == k;
                        assert(j != idx);
                        if j < idx {
                            assert(m[j].0@ == k);
                        } else {
                            assert(m[j - 1].0@ == k);
                        }
                    }
                    assert forall|i: int|
                        0 <= i < m.len() implies {
                            &&& self.members_map@.contains_key(#[trigger] m[i].0@)
                            &&& self.members_map@[m[i].0@] == m[i].1
                        } by {
                        if i < idx {
                            assert(o[i].0@ != o[idx as int].0@);
                            assert(old_self.members_map@.contains_key(o[i].0@));
                        } else {
                            assert(o[i + 1].0@ != o[idx as int].0@);
                            assert(old_self.members_map@.contains_key(o[i + 1].0@));
                        }
                    }
                    assert forall|i: int, j: int|
                        0 <= i < m.len() && 0 <= j < m.len() && i != j implies #[trigger] m[i].0@
                        != #[trigger] m[j].0@ by {
                        let oi = if i < idx { i } else { i + 1 };
                        let oj = if j < idx { j } else { j + 1 };
                        assert(o[oi].0@ != o[oj].0@);
                    }
                    assert(self.events@ == old_self.events@);
                    assert(self.wf());
                }
            },
        }
    }

    /// The send side of the mailbox registered as `name`, or
    /// `TargetAddressNotFound`.
    pub fn lookup(&self, name: &BusName) -> (r: Result<BusSender, Error>)
        requires
            self.wf(),
        ensures
            self.members().contains_key(name@) ==> r == Ok::<BusSender, Error>(self.members()[name@]),
            !self.members().contains_key(name@) ==> r == Err::<BusSender, Error>(Error::TargetAddressNotFound),
    {
        match self.find_member(name) {
            Some(i) => {
                proof {
                    assert(self.members_map@.contains_key(self.members@[i as int].0@));
                }
                Ok(self.members[i].1.clone())
            },
            None => Err(Error::TargetAddressNotFound),
        }
    }

    /// Appends the mailbox of `bus_name` to the listeners of `event`; an
    /// unregistered `bus_name` gives `TargetAddressNotFound`.
    pub fn subscribe(&mut self, bus_name: &BusName, event: Event) -> (r: Result<(), Error>)
        requires
            old(self).wf(),
        ensures
            final(self).wf(),
            final(self).members() == old(self).members(),
            !old(self).members().contains_key(bus_name@) ==> r == Err::<(), Error>(Error::TargetAddressNotFound)
                && final(self).subscriptions() == old(self).subscriptions(),
            old(self).members().contains_key(bus_name@) ==> r is Ok && final(self).subscriptions()
                == after_subscribe(old(self).subscriptions(), event@, old(self).members()[bus_name@]),
    {
        let sender = match self.lookup(bus_name) {
            Ok(s) => s,
            Err(e) => return Err(e),
        };
        let ghost key = event@;
        let ghost old_self = *self;
        let ghost new_list = listeners_of(self.events_map@, key).push(sender);
        match self.find_event(&event) {
            Some(idx) => {
                let mut entry = self.events.remove(idx);
                entry.1.push(sender);
                self.events.insert(idx, entry);
                proof {
                    assert(self.events@ =~= old_self.events@.update(idx as int, entry));
                    assert(old_self.events_map@.contains_key(key));
                }
            },
            None => {
                let ghost n = self.events@.len();
                self.events.push((event, vec![sender]));
                proof {
                    assert(self.events@[n as int].1@ =~= new_list);
                }
            },
        }
        self.events_map = Ghost(self.events_map@.insert(key, new_list));
        proof {
            let o = old_self.events@;
            let m = self.events@;
            assert forall|k: (Seq<char>, Seq<char>)| #[trigger] self.events_map@.contains_key(k) implies exists|i: int|
                0 <= i < m.len() && #[trigger] m[i].0@ == k by {
                if k != key {
                    assert(old_self.events_map@.contains_key(k));
                    let j = choose|j: int| 0 <= j < o.len() && #[trigger] o[j].0@ == k;
                    assert(m[j].0@ == k);
                } else if old_self.events_map@.contains_key(k) {
                    let j = choose|j: int| 0 <= j < o.len() && #[trigger] o[j].0@ == k;
                    assert(m[j].0@ == k);
                } else {
                    assert(m[o.len() as int].0@ == k);
                }
            }
            assert forall|i: int|
                0 <= i < m.len() implies {
                    &&& self.events_map@.contains_key(#[trigger] m[i].0@)
                    &&& self.events_map@[m[i].0@] == m[i].1@
                } by {
                if i < o.len() && o[i].0@ != key {
                    assert(m[i] == o[i]);
                    assert(old_self.events_map@.contains_key(o[i].0@));
                }
            }
            assert forall|i: int, j: int|
                0 <= i < m.len() && 0 <= j < m.len() && i != j implies #[trigger] m[i].0@
                != #[trigger] m[j].0@ by {
                if i < o.len() && j < o.len() {
                    assert(m[i].0@ == o[i].0@);
                    assert(m[j].0@ == o[j].0@);
                } else if i < o.len() {
                    assert(old_self.events_map@.contains_key(o[i].0@));
                } else {
                    assert(old_self.events_map@.contains_key(o[j].0@));
                }
            }
            assert(self.members@ == old_self.members@);
            assert(self.wf());
        }
        Ok(())
    }

    /// Makes `listener` a listener of the event `id` that the address
    /// `origin` declares; an unregistered `listener` gives `TargetAddressNotFound`.
    pub fn subscribe_to(&mut self, listener: &BusName, origin: BusName, id: String) -> (r: Result<(), Error>)
        requires
            old(self).wf(),
        ensures
            final(self).wf(),
            final(self).members() == old(self).members(),
            old(self).members().contains_key(listener@) ==> r is Ok && final(self).subscriptions()
                == after_subscribe(old(self).subscriptions(), (origin@, id@), old(self).members()[listener@]),
            !old(self).members().contains_key(listener@) ==> r == Err::<(), Error>(Error::TargetAddressNotFound)
                && final(self).subscriptions() == old(self).subscriptions(),
    {
        self.subscribe(listener, Event::new(origin, id))
    }

    /// The send sides of the listeners of `event`, in order of subscription;
    /// `None` for an event that nobody has subscribed to.
    pub fn listeners(&self, event: &Event) -> (r: Option<Vec<BusSender>>)
        requires
            self.wf(),
        ensures
            self.subscriptions().contains_key(event@) ==> (r matches Some(v) && v@ == self.subscriptions()[event@]),
            !self.subscriptions().contains_key(event@) ==> r is None,
    {
        match self.find_event(event) {
            None => None,
            Some(idx) => {
                let list = &self.events[idx].1;
                proof {
                    assert(self.events_map@.contains_key(self.events@[idx as int].0@));
                }
                let mut out: Vec<BusSender> = Vec::new();
                let mut i: usize = 0;
                while i < list.len()
                    invariant
                        i <= list@.len(),
                        out@ == list@.subrange(0, i as int),
                    decreases list@.len() - i,
                {
                    out.push(list[i].clone());
                    i = i + 1;
                    proof {
                        assert(out@ =~= list@.subrange(0, i as int));
                    }
                }
                assert(out@ =~= list@);
                Some(out)
            },
        }
    }

    /// Registers `name` once the liveness of the mailbox already held under it
    /// is known: a live one gives `AddressInUse`, a dead one is dropped and
    /// the name registered afresh.
    pub fn register_after_probe(&mut self, name: BusName, live: bool) -> (r: Result<BusReceiver, Error>)
        requires
            old(self).wf(),
        ensures
            final(self).wf(),
            final(self).subscriptions() == old(self).subscriptions(),
            (r is Ok) == register_succeeds(old(self).members(), name@, live),
            r is Ok ==> final(self).members() == old(self).members().insert(name@, final(self).members()[name@]),
            r is Err ==> r == Err::<BusReceiver, Error>(Error::AddressInUse) && final(self).members() == old(
                self,
            ).members(),
    {
        let ghost before = self.members();
        if self.find_member(&name).is_some() {
            if live {
                return Err(Error::AddressInUse);
            }
            self.unregister(&name);
        }
        let r = self.register(name);
        proof {
            assert(self.members() =~= before.insert(name@, self.members()[name@]));
        }
        r
    }

    /// Registers `name`. Where the name is taken, a probe is offered to its
    /// mailbox first: the registration fails with `AddressInUse` unless the
    /// mailbox's receiver is gone, in which case the stale entry is replaced.
    pub fn claim(&mut self, name: BusName) -> (r: Result<BusReceiver, Error>)
        requires
            old(self).wf(),
        ensures
            final(self).wf(),
            final(self).subscriptions() == old(self).subscriptions(),
            !old(self).members().contains_key(name@) ==> r is Ok,
            r is Ok ==> final(self).members() == old(self).members().insert(name@, final(self).members()[name@]),
            r is Err ==> r == Err::<BusReceiver, Error>(Error::AddressInUse) && old(self).members().contains_key(
                name@,
            ) && final(self).members() == old(self).members(),
    {
        let live = match self.lookup(&name) {
            Ok(tx) => try_send(&tx, Message::ping()).receiver_alive(),
            Err(_) => false,
        };
        self.register_after_probe(name, live)
    }

    /// The mailbox that `message` is addressed to; a message without a
    /// target, or with an unregistered one, gives `TargetAddressNotFound`.
    pub fn route(&self, message: &Message) -> (r: Result<BusSender, Error>)
        requires
            self.wf(),
        ensures
            (message.target matches Some(t) && self.members().contains_key(t@)) ==> r == Ok::<BusSender, Error>(
                self.members()[message.target->0@],
            ),
            !(message.target matches Some(t) && self.members().contains_key(t@)) ==> r == Err::<
                BusSender,
                Error,
            >(Error::TargetAddressNotFound),
    {
        match &message.target {
            Some(t) => self.lookup(t),
            None => Err(Error::TargetAddressNotFound),
        }
    }

    /// Offers `message` to its target's mailbox without waiting. `Ok(None)`:
    /// queued. `Ok(Some(m))`: the mailbox is full and `m` is the message handed
    /// back. `MessageSendFailed(target)`: the target's receiver is gone.
    /// `TargetAddressNotFound`: as for `route`.
    pub fn try_deliver(&self, message: Message) -> (r: Result<Option<Message>, Error>)
        requires
            self.wf(),
        ensures
            !(message.target matches Some(t) && self.members().contains_key(t@)) ==> r == Err::<
                Option<Message>,
                Error,
            >(Error::TargetAddressNotFound),
            (message.target matches Some(t) && self.members().contains_key(t@)) ==> !(r matches Err(
                Error::TargetAddressNotFound,
            )),
            r matches Ok(Some(m)) ==> m == message,
            r matches Err(e) ==> e is TargetAddressNotFound || e is MessageSendFailed,
            r matches Err(Error::MessageSendFailed(n)) ==> (message.target matches Some(t) && n@ == t@),
    {
        let tx = match self.route(&message) {
            Ok(tx) => tx,
            Err(e) => return Err(e),
        };
        let target = match &message.target {
            Some(t) => t.copy(),
            None => return Err(Error::TargetAddressNotFound),
        };
        match try_send(&tx, message) {
            SendAttempt::Sent => Ok(None),
            SendAttempt::Full(m) => Ok(Some(m)),
            SendAttempt::Closed(_) => Err(Error::MessageSendFailed(target)),
        }
    }
}

} // verus!
