//! ESB messages and their encapsulation inside USB-layer frame payloads.
//!
//! Encapsulated layout inside a CmdTransfer or CmdRx payload:
//!
//! | offset | 0  | 1   | 2..7       | 7..            |
//! |--------|----|-----|------------|----------------|
//! | field  | ID | ERR | ADDRESS(5) | DATA (<= 25 B) |

use vstd::prelude::*;
use crate::bridge::CmdCodes;
use crate::usb_protocol::Message;

verus! {

/// A peer is addressed by a 5-byte pipeline address.
pub const ESB_PIPE_ADDR_SIZE: usize = 5;
/// Size of a whole ESB packet on the radio.
pub const ESB_PACKET_SIZE: usize = 32;
/// Id, error code and pipeline address.
pub const ESB_HEADER_SIZE: usize = 2 + ESB_PIPE_ADDR_SIZE;
/// Largest payload an ESB packet can carry.
pub const ESB_MAX_PL_LEN: usize = ESB_PACKET_SIZE - ESB_HEADER_SIZE;

/// An addressed ESB radio packet.
pub struct EsbMessage {
    pub id: u8,
    pub err: u8,
    pub address: [u8; 5],
    pub payload: Vec<u8>,
}

/// The bytes of an ESB message as they travel inside a USB frame payload.
pub open spec fn encapsulated(m: EsbMessage) -> Seq<u8> {
    seq![m.id, m.err] + m.address@ + m.payload@
}

impl EsbMessage {
    /// The payload leaves room for the header in an ESB packet.
    pub open spec fn wf(self) -> bool {
        self.payload@.len() <= ESB_MAX_PL_LEN
    }

    pub fn new(target_addr: [u8; 5], msg_id: u8, payload: Vec<u8>) -> (r: Result<
        EsbMessage,
        String,
    >)
        ensures
            r is Ok <==> payload@.len() <= ESB_MAX_PL_LEN,
            r matches Ok(m) ==> {
                &&& m.id == msg_id
                &&& m.err == 0
                &&& m.address@ == target_addr@
                &&& m.payload@ == payload@
                &&& m.wf()
            },
    {
        if payload.len() > ESB_MAX_PL_LEN {
            return Err(String::from_str("Payload too large"));
        }
        Ok(EsbMessage { id: msg_id, err: 0, address: target_addr, payload })
    }

    /// Recover the ESB message that an inbound USB frame payload encapsulates.
    pub fn from_usb_message(usb_msg: Message) -> (r: Result<EsbMessage, String>)
        ensures
            r is Ok <==> ESB_HEADER_SIZE <= usb_msg.payload@.len() <= ESB_PACKET_SIZE,
            r matches Ok(m) ==> {
                &&& encapsulated(m) == usb_msg.payload@
                &&& m.id == usb_msg.payload@[0]
                &&& m.err == usb_msg.payload@[1]
                &&& m.address@ == usb_msg.payload@.subrange(2, ESB_HEADER_SIZE as int)
                &&& m.payload@ == usb_msg.payload@.skip(ESB_HEADER_SIZE as int)
                &&& m.wf()
            },
    {
        let pl = &usb_msg.payload;
        if pl.len() < ESB_HEADER_SIZE || pl.len() > ESB_PACKET_SIZE {
            return Err(String::from_str("Can't build EsbMessage: Malformed USB packet"));
        }

        let address: [u8; 5] = [pl[2], pl[3], pl[4], pl[5], pl[6]];
        let esb_payload_len = pl.len() - ESB_HEADER_SIZE;
        let mut esb_payload: Vec<u8> = Vec::new();
        let mut i: usize = 0;
        while i < esb_payload_len
            invariant
                ESB_HEADER_SIZE + esb_payload_len == pl@.len(),
                pl@.len() <= ESB_PACKET_SIZE,
                i <= esb_payload_len,
                esb_payload@ == pl@.subrange(ESB_HEADER_SIZE as int, ESB_HEADER_SIZE + i as int),
            decreases esb_payload_len - i,
        {
            esb_payload.push(pl[ESB_HEADER_SIZE + i]);
            assert(esb_payload@ =~= pl@.subrange(
                ESB_HEADER_SIZE as int,
                ESB_HEADER_SIZE + (i + 1) as int,
            ));
            i += 1;
        }
        let m = EsbMessage { id: pl[0], err: pl[1], address, payload: esb_payload };
        assert(m.address@ =~= pl@.subrange(2, ESB_HEADER_SIZE as int));
        assert(m.payload@ =~= pl@.skip(ESB_HEADER_SIZE as int));
        assert(encapsulated(m) =~= pl@);
        Ok(m)
    }

    /// Wrap this ESB message in a USB-layer message for a CmdTransfer request.
    pub fn build_message(&self) -> (r: Message)
        requires
            self.wf(),
        ensures
            r.id == CmdCodes::CmdTransfer.spec_code(),
            r.err == 0,
            r.payload@ == encapsulated(*self),
            r.wf(),
    {
        let mut payload: Vec<u8> = Vec::new();
        payload.push(self.id);
        payload.push(self.err);
        let mut i: usize = 0;
        while i < ESB_PIPE_ADDR_SIZE
            invariant
                i <= ESB_PIPE_ADDR_SIZE,
                payload@ == seq![self.id, self.err] + self.address@.take(i as int),
            decreases ESB_PIPE_ADDR_SIZE - i,
        {
            payload.push(self.address[i]);
            i += 1;
        }
        assert(self.address@.take(ESB_PIPE_ADDR_SIZE as int) == self.address@);
        let mut j: usize = 0;
        while j < self.payload.len()
            invariant
                j <= self.payload@.len(),
                payload@ == seq![self.id, self.err] + self.address@ + self.payload@.take(j as int),
            decreases self.payload@.len() - j,
        {
            payload.push(self.payload[j]);
            j += 1;
        }
        assert(payload@ =~= encapsulated(*self));
        Message { id: CmdCodes::CmdTransfer.code(), err: 0, payload }
    }
}

/// Law: encapsulating an ESB message in a USB frame payload and parsing that
/// payload back yields the same id, error code, address and payload.
pub proof fn lemma_esb_round_trip(m: EsbMessage)
    requires
        m.wf(),
    ensures
        ESB_HEADER_SIZE <= encapsulated(m).len() <= ESB_PACKET_SIZE,
        encapsulated(m)[0] == m.id,
        encapsulated(m)[1] == m.err,
        encapsulated(m).subrange(2, ESB_HEADER_SIZE as int) == m.address@,
        encapsulated(m).skip(ESB_HEADER_SIZE as int) == m.payload@,
{
    let e = encapsulated(m);
    assert(m.address@.len() == 5);
    assert(e.subrange(2, ESB_HEADER_SIZE as int) =~= m.address@);
    assert(e.skip(ESB_HEADER_SIZE as int) =~= m.payload@);
}

} // verus!
