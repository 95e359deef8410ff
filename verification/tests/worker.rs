use esb_bridge::listener::ListenerTable;
use esb_bridge::usb_protocol::Message;
use esb_bridge::worker::{handle_inbound, on_outbound, transfer_outcome, Inbound, PendingTransfer};

fn frame(id: u8, payload: Vec<u8>) -> Vec<u8> {
    Message::new(id, payload).unwrap().to_bytes()
}

/// A registered listener receives a decoded frame injected on the worker's
/// inbound path when no transfer is pending.
#[test]
fn listener_routing() {
    let mut table: ListenerTable<u32> = ListenerTable::new();
    let sink: u32 = 7;
    table.insert(0x33, sink);

    let mut state = PendingTransfer::new();
    let bytes = frame(0x33, vec![9]);
    match handle_inbound(&mut state, &table, &bytes) {
        Inbound::Listener(msg) => {
            assert_eq!(msg.id, 0x33);
            assert_eq!(msg.payload, vec![9]);
            assert_eq!(table.lookup(0x33), Some(&sink));
        }
        _ => panic!("frame was not routed to the listener"),
    }
}

/// With a transfer pending for an id, an inbound frame with that id goes to
/// the transfer waiter, not to a listener registered for the same id. With
/// no transfer pending, the same frame goes to the listener.
#[test]
fn transfer_listener_demux() {
    let mut table: ListenerTable<u32> = ListenerTable::new();
    table.insert(0x10, 1);

    let mut state = PendingTransfer::new();
    let request = Message::new(0x10, vec![]).unwrap();
    let wire = on_outbound(&mut state, &request);
    assert_eq!(wire.len(), 64);
    assert!(state.pending);

    let bytes = frame(0x10, vec![1, 2, 3]);
    match handle_inbound(&mut state, &table, &bytes) {
        Inbound::Reply(msg) => {
            assert_eq!(msg.id, 0x10);
            assert_eq!(msg.payload, vec![1, 2, 3]);
        }
        _ => panic!("reply was not routed to the transfer waiter"),
    }
    assert!(!state.pending);

    match handle_inbound(&mut state, &table, &bytes) {
        Inbound::Listener(msg) => assert_eq!(msg.id, 0x10),
        _ => panic!("frame was not routed to the listener"),
    }
}

/// A frame for an id with no listener and no pending transfer is dropped.
#[test]
fn unsolicited_without_listener() {
    let table: ListenerTable<u32> = ListenerTable::new();
    let mut state = PendingTransfer::new();
    let bytes = frame(0x44, vec![]);
    assert!(matches!(
        handle_inbound(&mut state, &table, &bytes),
        Inbound::NoListener(_)
    ));
}

/// Invalid bytes are discarded and leave the pending transfer untouched.
#[test]
fn invalid_frame_discarded() {
    let table: ListenerTable<u32> = ListenerTable::new();
    let mut state = PendingTransfer::new();
    let request = Message::new(0x21, vec![1, 2, 3, 4, 5]).unwrap();
    on_outbound(&mut state, &request);

    let garbage = vec![0x55; 64];
    assert!(matches!(
        handle_inbound(&mut state, &table, &garbage),
        Inbound::Invalid
    ));
    assert!(state.pending);
    assert_eq!(state.cmd_id, 0x21);
}

/// Registering a sink for an id already present replaces the prior sink:
/// later deliveries go only to the newer sink.
#[test]
fn listener_overwrite() {
    let mut table: ListenerTable<u32> = ListenerTable::new();
    table.insert(0x33, 1);
    table.insert(0x33, 2);
    assert_eq!(table.lookup(0x33), Some(&2));

    let mut state = PendingTransfer::new();
    let bytes = frame(0x33, vec![9]);
    match handle_inbound(&mut state, &table, &bytes) {
        Inbound::Listener(msg) => {
            assert_eq!(table.lookup(msg.id), Some(&2));
        }
        _ => panic!("frame was not routed to the listener"),
    }
}

/// A transfer that sees no reply by its deadline fails with a timeout; one
/// that got a reply hands it back.
#[test]
fn timeout_outcome() {
    let outcome = transfer_outcome(None);
    assert_eq!(outcome.err(), Some(String::from("Timeout waiting for an answer")));

    let reply = Message::new(0x10, vec![1]).unwrap();
    let outcome = transfer_outcome(Some(reply));
    assert_eq!(outcome.unwrap().payload, vec![1]);
}
