//! Command codes of the USB-layer protocol, and the pure parts of the
//! bridge facade: building requests and interpreting replies.

use vstd::prelude::*;
use crate::usb_protocol::{Message, MAX_PL_LEN};

verus! {

/// Command codes used in the id field of USB-layer frames.
#[derive(Clone, Copy, PartialEq, Eq, Structural, Debug)]
pub enum CmdCodes {
    /// Get firmware version
    CmdVersion,
    /// Set central pipeline address
    CmdSetCentralAddr,
    /// Transfer message
    CmdTransfer,
    /// Send a message without waiting for a reply
    CmdSend,
    /// Test command, do not use
    _CmdTest,
    /// Interrupt callback, only from device to host
    CmdIrq,
    /// Callback from incoming ESB message
    CmdRx,
}

impl CmdCodes {
    /// The byte value of the command code on the wire.
    pub open spec fn spec_code(self) -> u8 {
        match self {
            CmdCodes::CmdVersion => 0x10,
            CmdCodes::CmdSetCentralAddr => 0x21,
            CmdCodes::CmdTransfer => 0x30,
            CmdCodes::CmdSend => 0x31,
            CmdCodes::_CmdTest => 0x61,
            CmdCodes::CmdIrq => 0x80,
            CmdCodes::CmdRx => 0x81,
        }
    }

    #[verifier::when_used_as_spec(spec_code)]
    pub fn code(self) -> (r: u8)
        ensures
            r == self.spec_code(),
    {
        match self {
            CmdCodes::CmdVersion => 0x10,
            CmdCodes::CmdSetCentralAddr => 0x21,
            CmdCodes::CmdTransfer => 0x30,
            CmdCodes::CmdSend => 0x31,
            CmdCodes::_CmdTest => 0x61,
            CmdCodes::CmdIrq => 0x80,
            CmdCodes::CmdRx => 0x81,
        }
    }
}

/// The decimal digit character for a value below ten.
pub open spec fn digit_char(d: u8) -> char {
    if d == 0 {
        '0'
    } else if d == 1 {
        '1'
    } else if d == 2 {
        '2'
    } else if d == 3 {
        '3'
    } else if d == 4 {
        '4'
    } else if d == 5 {
        '5'
    } else if d == 6 {
        '6'
    } else if d == 7 {
        '7'
    } else if d == 8 {
        '8'
    } else {
        '9'
    }
}

/// The decimal rendering of a byte, without leading zeroes.
pub open spec fn dec_chars(n: u8) -> Seq<char> {
    if n >= 100 {
        seq![digit_char(n / 100), digit_char((n / 10) % 10), digit_char(n % 10)]
    } else if n >= 10 {
        seq![digit_char(n / 10), digit_char(n % 10)]
    } else {
        seq![digit_char(n)]
    }
}

/// The dotted firmware version string for three version bytes.
pub open spec fn version_chars(major: u8, minor: u8, patch: u8) -> Seq<char> {
    seq!['v'] + dec_chars(major) + seq!['.'] + dec_chars(minor) + seq!['.'] + dec_chars(patch)
}

fn digit_str(d: u8) -> (r: &'static str)
    requires
        d < 10,
    ensures
        r@ == seq![digit_char(d)],
{
    proof {
        reveal_strlit("0");
        reveal_strlit("1");
        reveal_strlit("2");
        reveal_strlit("3");
        reveal_strlit("4");
        reveal_strlit("5");
        reveal_strlit("6");
        reveal_strlit("7");
        reveal_strlit("8");
        reveal_strlit("9");
    }
    match d {
        0 => "0",
        1 => "1",
        2 => "2",
        3 => "3",
        4 => "4",
        5 => "5",
        6 => "6",
        7 => "7",
        8 => "8",
        _ => "9",
    }
}

fn push_dec(out: &mut String, n: u8)
    ensures
        final(out)@ == old(out)@ + dec_chars(n),
{
    if n >= 100 {
        out.append(digit_str(n / 100));
        out.append(digit_str((n / 10) % 10));
        out.append(digit_str(n % 10));
    } else if n >= 10 {
        out.append(digit_str(n / 10));
        out.append(digit_str(n % 10));
    } else {
        out.append(digit_str(n));
    }
    assert(final(out)@ =~= old(out)@ + dec_chars(n));
}

/// The request frame payload that asks the device for its firmware version.
pub fn version_request() -> (r: Message)
    ensures
        r.id == CmdCodes::CmdVersion.spec_code(),
        r.err == 0,
        r.payload@ == Seq::<u8>::empty(),
        r.wf(),
{
    Message { id: CmdCodes::CmdVersion.code(), err: 0, payload: Vec::new() }
}

/// The request that sets the central pipeline address the device listens on.
pub fn set_central_address_request(addr: &[u8; 5]) -> (r: Message)
    ensures
        r.id == CmdCodes::CmdSetCentralAddr.spec_code(),
        r.err == 0,
        r.payload@ == addr@,
        r.wf(),
{
    let mut payload: Vec<u8> = Vec::new();
    let mut i: usize = 0;
    while i < 5
        invariant
            i <= 5,
            payload@ == addr@.take(i as int),
        decreases 5 - i,
    {
        payload.push(addr[i]);
        i += 1;
    }
    assert(payload@ =~= addr@);
    Message { id: CmdCodes::CmdSetCentralAddr.code(), err: 0, payload }
}

/// Read the firmware version out of the device's reply: the first three
/// payload bytes, formatted as a dotted decimal version string. A reply too
/// short to carry three bytes is malformed and reported as an error, never
/// indexed into.
pub fn version_from_reply(reply: &Message) -> (r: Result<String, String>)
    ensures
        r is Ok <==> reply.payload@.len() >= 3,
        r matches Ok(s) ==> s@ == version_chars(
            reply.payload@[0],
            reply.payload@[1],
            reply.payload@[2],
        ),
        r matches Err(e) ==> e@ == "Error reading Firmware version"@,
{
    if reply.payload.len() < 3 {
        return Err(String::from_str("Error reading Firmware version"));
    }
    proof {
        reveal_strlit("v");
        reveal_strlit(".");
    }
    let mut s = String::from_str("v");
    push_dec(&mut s, reply.payload[0]);
    s.append(".");
    push_dec(&mut s, reply.payload[1]);
    s.append(".");
    push_dec(&mut s, reply.payload[2]);
    assert(s@ =~= version_chars(reply.payload@[0], reply.payload@[1], reply.payload@[2]));
    Ok(s)
}

} // verus!
