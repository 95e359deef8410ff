//! The USB-layer framer: fixed 64-byte packets with sync byte, header and
//! CRC-16/CCITT-FALSE checksum.
//!
//! Wire layout of a frame:
//!
//! | offset | 0    | 1  | 2   | 3      | 4..62         | 62   | 63   |
//! |--------|------|----|-----|--------|---------------|------|------|
//! | field  | SYNC | ID | ERR | PL_LEN | payload + pad | CRCL | CRCH |
//!
//! The checksum covers the first 62 bytes, padding included, and is appended
//! low byte first.

use vstd::prelude::*;

verus! {

/// Total size of a frame on the wire.
pub const PACKET_SIZE: usize = 64;
/// Sync byte, id, err and payload length.
pub const HEADER_SIZE: usize = 4;
/// The checksum takes the last two bytes of a frame.
pub const CRC_SIZE: usize = 2;
/// First byte of every frame.
pub const SYNC_BYTE: u8 = 0x69;
/// Largest payload a frame can carry.
pub const MAX_PL_LEN: usize = 58;

/// Byte offset of the checksum within a frame.
pub const IDX_CRC: usize = 62;

/// The CRC-16/CCITT-FALSE checksum of a byte sequence.
pub uninterp spec fn crc16_ccitt_false(data: Seq<u8>) -> u16;

/// Relies on crc16::State::<CCITT_FALSE>::calculate, which computes the
/// CRC-16/CCITT-FALSE checksum (poly 0x1021, init 0xFFFF, no reflection,
/// no final xor) of the input bytes alone.
#[verifier::external_body]
fn crc(data: &[u8]) -> (r: u16)
    ensures
        r == crc16_ccitt_false(data@),
{
    crc16::State::<crc16::CCITT_FALSE>::calculate(data)
}

/// Representation of a USB protocol message
pub struct Message {
    pub id: u8,
    pub err: u8,
    pub payload: Vec<u8>,
}

/// The first 62 bytes of the encoded frame: header, payload, zero padding.
pub open spec fn frame_head(m: Message) -> Seq<u8> {
    seq![SYNC_BYTE, m.id, m.err, m.payload@.len() as u8] + m.payload@ + Seq::new(
        (MAX_PL_LEN - m.payload@.len()) as nat,
        |i: int| 0u8,
    )
}

/// All 64 bytes of the encoded frame: head plus the little-endian checksum.
pub open spec fn frame_bytes(m: Message) -> Seq<u8> {
    frame_head(m) + seq![
        crc16_ccitt_false(frame_head(m)) as u8,
        (crc16_ccitt_false(frame_head(m)) >> 8) as u8,
    ]
}

/// The checksum carried in the last two bytes of a frame, low byte first.
pub open spec fn frame_crc_field(b: Seq<u8>) -> u16 {
    (b[IDX_CRC as int] as u16) | ((b[IDX_CRC + 1] as u16) << 8)
}

/// A byte sequence is accepted as a frame: exact length, sync byte first,
/// checksum over the first 62 bytes matching the transmitted one, and a
/// payload length within bounds.
pub open spec fn frame_ok(b: Seq<u8>) -> bool {
    &&& b.len() == PACKET_SIZE
    &&& b[0] == SYNC_BYTE
    &&& frame_crc_field(b) == crc16_ccitt_false(b.take(IDX_CRC as int))
    &&& b[3] <= MAX_PL_LEN
}

/// The command id carried by a frame.
pub open spec fn frame_id(b: Seq<u8>) -> u8 {
    b[1]
}

/// The error code carried by a frame.
pub open spec fn frame_err(b: Seq<u8>) -> u8 {
    b[2]
}

/// The payload carried by a frame: the first PL_LEN bytes of the payload area.
pub open spec fn frame_payload(b: Seq<u8>) -> Seq<u8> {
    b.subrange(HEADER_SIZE as int, HEADER_SIZE + b[3] as int)
}

impl Message {
    /// The payload leaves room for header and checksum in a frame.
    pub open spec fn wf(self) -> bool {
        self.payload@.len() <= MAX_PL_LEN
    }

    pub fn new(msg_id: u8, payload: Vec<u8>) -> (r: Result<Message, &'static str>)
        ensures
            r is Ok <==> payload@.len() <= MAX_PL_LEN,
            r matches Ok(m) ==> m.id == msg_id && m.err == 0 && m.payload@ == payload@ && m.wf(),
    {
        if payload.len() > MAX_PL_LEN {
            return Err("Payload too large");
        }
        Ok(Message { id: msg_id, err: 0, payload })
    }

    /// Convert the message to a vector of bytes which will be sent to the device
    pub fn to_bytes(&self) -> (r: Vec<u8>)
        requires
            self.wf(),
        ensures
            r@ == frame_bytes(*self),
            r@.len() == PACKET_SIZE,
    {
        let pl_len = self.payload.len();
        let mut data: Vec<u8> = Vec::new();
        data.push(SYNC_BYTE);
        data.push(self.id);
        data.push(self.err);
        data.push(pl_len as u8);
        let mut i: usize = 0;
        while i < pl_len
            invariant
                self.wf(),
                pl_len == self.payload@.len(),
                i <= pl_len,
                data@ == seq![SYNC_BYTE, self.id, self.err, pl_len as u8]
                    + self.payload@.take(i as int),
            decreases pl_len - i,
        {
            data.push(self.payload[i]);
            i += 1;
        }
        assert(self.payload@.take(pl_len as int) == self.payload@);
        while data.len() < IDX_CRC
            invariant
                self.wf(),
                pl_len == self.payload@.len(),
                HEADER_SIZE + pl_len <= data@.len() <= IDX_CRC,
                data@.take(HEADER_SIZE + pl_len as int) == seq![
                    SYNC_BYTE,
                    self.id,
                    self.err,
                    pl_len as u8,
                ] + self.payload@,
                forall|j: int| HEADER_SIZE + pl_len <= j < data@.len() ==> data@[j] == 0u8,
            decreases IDX_CRC - data.len(),
        {
            data.push(0);
        }
        assert(data@ =~= frame_head(*self));
        let checksum = crc(data.as_slice());
        data.push(checksum as u8);
        data.push((checksum >> 8) as u8);
        assert(data@ =~= frame_bytes(*self));
        data
    }

    /// Construct a message from a byte slice received from the device
    pub fn from_bytes(bytes: &[u8]) -> (r: Option<Message>)
        ensures
            r is Some <==> frame_ok(bytes@),
            r matches Some(m) ==> {
                &&& m.id == frame_id(bytes@)
                &&& m.err == frame_err(bytes@)
                &&& m.payload@ == frame_payload(bytes@)
                &&& m.wf()
            },
    {
        // Check Packet size
        if bytes.len() != PACKET_SIZE {
            return None;
        }
        // Check SYNC byte
        if bytes[0] != SYNC_BYTE {
            return None;
        }
        // Check CRC
        let head = vstd::slice::slice_subrange(bytes, 0, IDX_CRC);
        let computed = crc(head);
        let transmitted = (bytes[IDX_CRC] as u16) | ((bytes[IDX_CRC + 1] as u16) << 8);
        if computed != transmitted {
            return None;
        }
        // Check payload length bound
        let pl_len = bytes[3] as usize;
        if pl_len > MAX_PL_LEN {
            return None;
        }
        let mut payload: Vec<u8> = Vec::new();
        let mut i: usize = 0;
        while i < pl_len
            invariant
                bytes@.len() == PACKET_SIZE,
                pl_len <= MAX_PL_LEN,
                i <= pl_len,
                payload@ == bytes@.subrange(HEADER_SIZE as int, HEADER_SIZE + i as int),
            decreases pl_len - i,
        {
            payload.push(bytes[HEADER_SIZE + i]);
            assert(payload@ =~= bytes@.subrange(HEADER_SIZE as int, HEADER_SIZE + (i + 1) as int));
            i += 1;
        }
        Some(Message { id: bytes[1], err: bytes[2], payload })
    }
}

/// Law: a buffer whose first byte is not the sync byte is never accepted as
/// a frame, even when its checksum is consistent with its contents.
pub proof fn lemma_sync_rejection(b: Seq<u8>)
    requires
        b.len() == PACKET_SIZE,
        b[0] != SYNC_BYTE,
    ensures
        !frame_ok(b),
{
}

/// Law: a well-formed message encodes to a 64-byte frame that is accepted
/// back by the decoder and carries the same id, error code and payload.
pub proof fn lemma_frame_round_trip(m: Message)
    requires
        m.wf(),
    ensures
        frame_bytes(m).len() == PACKET_SIZE,
        frame_ok(frame_bytes(m)),
        frame_id(frame_bytes(m)) == m.id,
        frame_err(frame_bytes(m)) == m.err,
        frame_payload(frame_bytes(m)) == m.payload@,
{
    let h = frame_head(m);
    let b = frame_bytes(m);
    let c = crc16_ccitt_false(h);
    assert(h.len() == IDX_CRC);
    assert(b.len() == PACKET_SIZE);
    assert(b.take(IDX_CRC as int) =~= h);
    assert(((c as u8) as u16) | ((((c >> 8) as u8) as u16) << 8) == c) by (bit_vector);
    assert(frame_crc_field(b) == c);
    assert(b[3] == m.payload@.len() as u8);
    assert(frame_payload(b) =~= m.payload@);
}

} // verus!
