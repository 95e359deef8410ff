//! The link worker's decisions. The worker owns the serial port, writes one
//! outbound frame at a time and routes every inbound frame either to the
//! waiter of the pending transfer or to a registered listener. The I/O loop
//! around these decisions performs the serial reads and writes and the
//! channel sends; everything it decides is here.

use vstd::prelude::*;
use crate::listener::ListenerTable;
use crate::usb_protocol::{frame_bytes, frame_err, frame_id, frame_ok, frame_payload, Message,
    PACKET_SIZE};

verus! {

/// The worker's record of the one transfer that may be in flight: the command
/// id it was sent with, and whether its reply is still awaited.
#[derive(Clone, Copy, PartialEq, Eq, Structural, Debug)]
pub struct PendingTransfer {
    pub cmd_id: u8,
    pub pending: bool,
}

impl PendingTransfer {
    /// No transfer is pending on a fresh link.
    pub fn new() -> (r: Self)
        ensures
            !r.pending,
    {
        PendingTransfer { cmd_id: 0, pending: false }
    }
}

/// What the worker does with one inbound read of a frame's worth of bytes.
pub enum Inbound {
    /// The frame answers the pending transfer: hand it to the waiter.
    Reply(Message),
    /// No transfer matches, a listener is registered for the id: hand the
    /// frame to that listener's sink.
    Listener(Message),
    /// No transfer matches and no listener is registered: drop the frame.
    NoListener(Message),
    /// The bytes are not a valid frame: drop them.
    Invalid,
}

/// Record the write of an outbound message: its reply is now awaited under
/// its command id, and the bytes to put on the wire are its encoded frame.
pub fn on_outbound(state: &mut PendingTransfer, msg: &Message) -> (frame: Vec<u8>)
    requires
        !old(state).pending,
        msg.wf(),
    ensures
        final(state).pending,
        final(state).cmd_id == msg.id,
        frame@ == frame_bytes(*msg),
        frame@.len() == PACKET_SIZE,
{
    let frame = msg.to_bytes();
    state.pending = true;
    state.cmd_id = msg.id;
    frame
}

/// Route one inbound read. A valid frame goes to the transfer waiter exactly
/// when a transfer is pending and the frame's id matches it — a listener
/// registered for the same id does not see it. With no matching transfer the
/// frame goes to the listener registered for its id, if any. Anything else
/// is dropped, and the pending transfer, if any, stays pending.
pub fn handle_inbound<S>(
    state: &mut PendingTransfer,
    listeners: &ListenerTable<S>,
    bytes: &[u8],
) -> (r: Inbound)
    ensures
        final(state).cmd_id == old(state).cmd_id,
        final(state).pending == (old(state).pending && !(frame_ok(bytes@) && frame_id(bytes@)
            == old(state).cmd_id)),
        !frame_ok(bytes@) ==> r is Invalid,
        frame_ok(bytes@) ==> {
            let decoded_to_waiter = old(state).pending && frame_id(bytes@) == old(state).cmd_id;
            &&& decoded_to_waiter ==> (r matches Inbound::Reply(m) && decoded_frame(m, bytes@))
            &&& !decoded_to_waiter && listeners@.contains_key(frame_id(bytes@)) ==> (r matches
                Inbound::Listener(m) && decoded_frame(m, bytes@))
            &&& !decoded_to_waiter && !listeners@.contains_key(frame_id(bytes@)) ==> (r matches
                Inbound::NoListener(m) && decoded_frame(m, bytes@))
        },
{
    match Message::from_bytes(bytes) {
        Some(msg) => {
            if state.pending && state.cmd_id == msg.id {
                state.pending = false;
                Inbound::Reply(msg)
            } else if listeners.contains(msg.id) {
                Inbound::Listener(msg)
            } else {
                Inbound::NoListener(msg)
            }
        },
        None => Inbound::Invalid,
    }
}

/// A message carries exactly what a frame's header and payload hold.
pub open spec fn decoded_frame(m: Message, b: Seq<u8>) -> bool {
    &&& m.id == frame_id(b)
    &&& m.err == frame_err(b)
    &&& m.payload@ == frame_payload(b)
    &&& m.wf()
}

/// The outcome a caller of a transfer sees at its deadline: the reply, if
/// one matching frame arrived in time, and a timeout error otherwise.
pub fn transfer_outcome(reply: Option<Message>) -> (r: Result<Message, String>)
    ensures
        r is Ok <==> reply is Some,
        reply matches Some(m) ==> r == Result::<Message, String>::Ok(m),
        r matches Err(e) ==> e@ == "Timeout waiting for an answer"@,
{
    match reply {
        Some(msg) => Ok(msg),
        None => Err(String::from_str("Timeout waiting for an answer")),
    }
}

} // verus!
