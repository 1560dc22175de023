use javelin_bus::{BusName, Error, Event, Message, MessagePayload, Received, Registry, SendAttempt, MAILBOX_CAPACITY};

fn name(s: &str) -> BusName {
    BusName::from_str(s).expect("valid name")
}

fn text(target: &str, body: &str) -> Message {
    Message::new(Some(name(target)), body)
}

#[test]
fn register_on_bus() {
    let mut handle = Registry::new();

    let client1 = handle.claim(name("test.client.1"));
    assert_eq!(client1.is_ok(), true, "Failed to register new client");

    let client2 = handle.claim(name("test.client.1"));
    assert_eq!(client2.is_ok(), false, "Should not allow two clients with the same name");

    drop(client1);
    let addr2 = handle.claim(name("test.client.1"));
    assert_eq!(addr2.is_ok(), true, "Failed to register new client after dropping old one");
}

#[test]
fn send_direct_message() {
    let mut handle = Registry::new();

    let _client1 = handle.claim(name("test.client.1")).expect("Did not receive bus address");

    let result = handle.try_deliver(text("test.client.2", "hello"));
    assert_eq!(
        result.unwrap_err(),
        Error::TargetAddressNotFound,
        "Sending to a unknown bus name should error"
    );

    let mut client2 = handle.claim(name("test.client.2")).expect("Did not receive bus address");
    let mut outgoing = text("test.client.2", "hello");
    outgoing.origin = Some(name("test.client.1"));
    assert!(handle.try_deliver(outgoing).unwrap().is_none());

    let msg = match Message::screen(client2.try_recv().ok()) {
        Received::Delivered(m) => m,
        _ => panic!("Failed to receive message"),
    };
    assert_eq!(msg.origin, Some(name("test.client.1")));
    let msg: String = msg.unpack().expect("Failed to unpack received message");
    assert_eq!(msg, "hello", "Sent message should show up on other client");
}

#[test]
fn message_subscription_and_broadcast() {
    let mut handle = Registry::new();

    let mut client1 = handle.claim(name("test.client.1")).expect("Did not receive bus address");
    let mut client2 = handle.claim(name("test.client.2")).expect("Did not receive bus address");
    let _client3 = handle.claim(name("test.client.3")).expect("Did not receive bus address");

    let event = Event::new(name("test.client.3"), "hello".to_string());
    assert!(handle.subscribe(&name("test.client.1"), event.clone()).is_ok());
    assert!(handle.subscribe(&name("test.client.2"), event.clone()).is_ok());

    let message = Message::new(None, "Hello There!");
    let listeners = handle.listeners(&event).expect("event has listeners");
    assert_eq!(listeners.len(), 2);
    for listener in &listeners {
        let _ = listener.try_send(message.clone());
    }

    let msg1 = client1.try_recv().expect("first subscriber got the broadcast");
    let msg2 = client2.try_recv().expect("second subscriber got the broadcast");
    assert_eq!(msg1.unpack().unwrap(), "Hello There!");
    assert_eq!(msg2.unpack().unwrap(), "Hello There!");
}

#[test]
fn second_registration_fails_while_first_is_live() {
    let mut reg = Registry::new();
    let _rx = reg.claim(name("a")).unwrap();
    assert_eq!(reg.claim(name("a")).unwrap_err(), Error::AddressInUse);
    assert_eq!(reg.claim(name("a")).unwrap_err(), Error::AddressInUse);
}

#[test]
fn released_name_can_be_registered_again() {
    let mut reg = Registry::new();
    let rx = reg.claim(name("a")).unwrap();
    drop(rx);
    reg.unregister(&name("a"));
    assert!(reg.lookup(&name("a")).is_err());
    assert!(reg.claim(name("a")).is_ok());
}

#[test]
fn plain_register_refuses_a_taken_name() {
    let mut reg = Registry::new();
    let rx = reg.register(name("a")).unwrap();
    drop(rx);
    assert_eq!(reg.register(name("a")).unwrap_err(), Error::AddressInUse);
    assert!(reg.register_after_probe(name("a"), false).is_ok());
    assert_eq!(reg.register_after_probe(name("a"), true).unwrap_err(), Error::AddressInUse);
}

#[test]
fn unregister_is_idempotent() {
    let mut reg = Registry::new();
    reg.unregister(&name("never"));
    let _rx = reg.claim(name("b")).unwrap();
    reg.unregister(&name("b"));
    reg.unregister(&name("b"));
    assert_eq!(reg.lookup(&name("b")).unwrap_err(), Error::TargetAddressNotFound);
}

#[test]
fn unknown_target_is_reported() {
    let reg = Registry::new();
    assert_eq!(reg.lookup(&name("nobody")).unwrap_err(), Error::TargetAddressNotFound);
    assert_eq!(reg.route(&text("nobody", "x")).unwrap_err(), Error::TargetAddressNotFound);
    let untargeted = Message::new(None, "x");
    assert_eq!(reg.try_deliver(untargeted).unwrap_err(), Error::TargetAddressNotFound);
}

#[test]
fn subscribing_an_unknown_name_fails() {
    let mut reg = Registry::new();
    let event = Event::new(name("c"), "hello".to_string());
    assert_eq!(reg.subscribe(&name("a"), event.clone()).unwrap_err(), Error::TargetAddressNotFound);
    assert!(reg.listeners(&event).is_none());
}

#[test]
fn probe_is_never_delivered() {
    let mut reg = Registry::new();
    let mut rx = reg.claim(name("a")).unwrap();
    assert_eq!(reg.claim(name("a")).unwrap_err(), Error::AddressInUse);
    let probe = rx.try_recv().expect("probe was queued");
    assert_eq!(probe.payload, MessagePayload::Ping);
    assert!(matches!(Message::screen(Some(probe)), Received::Skipped));
    assert!(matches!(Message::screen(None), Received::Closed));
    assert_eq!(Message::ping().unpack().unwrap_err(), Error::MessageUnpackFailed);
}

#[test]
fn full_mailbox_hands_message_back_and_closed_one_fails() {
    let mut reg = Registry::new();
    let rx = reg.claim(name("slow")).unwrap();
    for _ in 0..MAILBOX_CAPACITY {
        assert!(reg.try_deliver(text("slow", "x")).unwrap().is_none());
    }
    let back = reg.try_deliver(text("slow", "over")).unwrap().expect("mailbox is full");
    assert_eq!(back.unpack().unwrap(), "over");
    drop(rx);
    assert_eq!(
        reg.try_deliver(text("slow", "late")).unwrap_err(),
        Error::MessageSendFailed(name("slow"))
    );
}

#[test]
fn full_mailbox_still_counts_as_live() {
    let mut reg = Registry::new();
    let _rx = reg.claim(name("busy")).unwrap();
    for _ in 0..MAILBOX_CAPACITY {
        assert!(reg.try_deliver(text("busy", "x")).unwrap().is_none());
    }
    assert_eq!(reg.claim(name("busy")).unwrap_err(), Error::AddressInUse);
}

#[test]
fn stale_address_is_reclaimed() {
    let mut reg = Registry::new();
    let rx = reg.claim(name("a")).unwrap();
    drop(rx);
    let mut fresh = reg.claim(name("a")).expect("stale entry replaced");
    assert!(reg.try_deliver(text("a", "hi")).unwrap().is_none());
    assert_eq!(fresh.try_recv().unwrap().unpack().unwrap(), "hi");
}

#[test]
fn messages_from_one_sender_keep_their_order() {
    let mut reg = Registry::new();
    let mut rx = reg.claim(name("t")).unwrap();
    let bodies = ["one", "two", "three", "four", "five"];
    for b in bodies.iter() {
        assert!(reg.try_deliver(text("t", b)).unwrap().is_none());
    }
    for b in bodies.iter() {
        assert_eq!(rx.try_recv().unwrap().unpack().unwrap(), *b);
    }
}

#[test]
fn names_must_not_be_empty() {
    assert_eq!(BusName::from_str("").unwrap_err(), Error::InvalidBusName);
    assert_eq!(BusName::from_string(String::new()).unwrap_err(), Error::InvalidBusName);
    assert_eq!(name("x.y").as_str(), "x.y");
    assert_eq!(name("x.y").to_string(), "x.y".to_string());
}

#[test]
fn text_payload_is_bincode() {
    let m = text("t", "hello");
    assert_eq!(
        m.payload,
        MessagePayload::Bytes(vec![5, 0, 0, 0, 0, 0, 0, 0, b'h', b'e', b'l', b'l', b'o'])
    );
    let raw = Message::new_raw(Some(name("t")), MessagePayload::from(vec![1, 2]));
    assert_eq!(raw.unpack().unwrap_err(), Error::MessageUnpackFailed);
}

#[test]
fn events_are_scoped_by_origin() {
    let mut reg = Registry::new();
    let _a = reg.claim(name("a")).unwrap();
    let on_b = Event::new(name("b"), "hello".to_string());
    let on_c = Event::new(name("c"), "hello".to_string());
    reg.subscribe(&name("a"), on_b.clone()).unwrap();
    assert_eq!(reg.listeners(&on_b).unwrap().len(), 1);
    assert!(reg.listeners(&on_c).is_none());
}

#[test]
fn subscribe_to_builds_the_event_of_the_origin() {
    let mut reg = Registry::new();
    let _a = reg.claim(name("a")).unwrap();
    assert!(reg.subscribe_to(&name("a"), name("c"), "hello".to_string()).is_ok());
    assert_eq!(
        reg.subscribe_to(&name("nobody"), name("c"), "hello".to_string()).unwrap_err(),
        Error::TargetAddressNotFound
    );
    let event = Event::new(name("c"), "hello".to_string());
    assert_eq!(reg.listeners(&event).unwrap().len(), 1);
}

#[test]
fn probe_outcomes_map_to_liveness() {
    assert!(SendAttempt::Sent.receiver_alive());
    assert!(SendAttempt::Full(Message::ping()).receiver_alive());
    assert!(!SendAttempt::Closed(Message::ping()).receiver_alive());
}

#[test]
fn undecodable_bytes_fail_to_unpack() {
    let m = Message::new_raw(None, MessagePayload::from(vec![9, 0, 0, 0, 0, 0, 0, 0, b'a']));
    assert_eq!(m.unpack().unwrap_err(), Error::MessageUnpackFailed);
    assert_eq!(Message::new(None, "").unpack().unwrap(), "");
}
