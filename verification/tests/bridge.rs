use esb_bridge::bridge::{set_central_address_request, version_from_reply, version_request,
    CmdCodes};
use esb_bridge::server::Server;
use esb_bridge::usb_protocol::Message;

#[test]
fn cmd_codes() {
    assert_eq!(CmdCodes::CmdVersion.code(), 0x10);
    assert_eq!(CmdCodes::CmdSetCentralAddr.code(), 0x21);
    assert_eq!(CmdCodes::CmdTransfer.code(), 0x30);
    assert_eq!(CmdCodes::CmdSend.code(), 0x31);
    assert_eq!(CmdCodes::CmdIrq.code(), 0x80);
    assert_eq!(CmdCodes::CmdRx.code(), 0x81);
}

/// The version request frame: id 0x10, no payload, bytes [0..4] fixed,
/// payload area zero, checksum appended low byte first.
#[test]
fn encode_version_request() {
    let msg = version_request();
    assert_eq!(msg.id, 0x10);
    assert_eq!(msg.err, 0);
    assert!(msg.payload.is_empty());

    let bytes = msg.to_bytes();
    assert_eq!(&bytes[..4], [0x69, 0x10, 0x00, 0x00]);
    assert!(bytes[4..62].iter().all(|b| *b == 0x00));
    let crc = crc16::State::<crc16::CCITT_FALSE>::calculate(&bytes[..62]);
    assert_eq!(bytes[62], crc as u8);
    assert_eq!(bytes[63], (crc >> 8) as u8);
}

/// A version reply with payload [1, 2, 3] reads back as "v1.2.3".
#[test]
fn decode_version_reply() {
    let mut bytes = vec![0x69, 0x10, 0x00, 0x03, 1, 2, 3];
    bytes.resize(62, 0x00);
    let crc = crc16::State::<crc16::CCITT_FALSE>::calculate(&bytes[..62]);
    bytes.push(crc as u8);
    bytes.push((crc >> 8) as u8);

    let reply = Message::from_bytes(&bytes).unwrap();
    assert_eq!(reply.id, 0x10);
    assert_eq!(reply.err, 0);
    assert_eq!(reply.payload, vec![1, 2, 3]);

    let version = version_from_reply(&reply).unwrap();
    assert_eq!(version, String::from("v1.2.3"));
}

/// Version strings render each byte in decimal, without leading zeroes.
#[test]
fn version_formatting() {
    let reply = Message::new(0x10, vec![123, 45, 0]).unwrap();
    assert_eq!(version_from_reply(&reply).unwrap(), String::from("v123.45.0"));
    let reply = Message::new(0x10, vec![10, 200, 99]).unwrap();
    assert_eq!(version_from_reply(&reply).unwrap(), String::from("v10.200.99"));
}

/// A version reply too short for three bytes is reported as an error.
#[test]
fn version_reply_too_short() {
    let reply = Message::new(0x10, vec![1, 2]).unwrap();
    let result = version_from_reply(&reply);
    assert_eq!(result.err(), Some(String::from("Error reading Firmware version")));
}

#[test]
fn central_address_request() {
    let msg = set_central_address_request(&[0xDE, 0xAD, 0xBE, 0xEF, 0x42]);
    assert_eq!(msg.id, 0x21);
    assert_eq!(msg.err, 0);
    assert_eq!(msg.payload, vec![0xDE, 0xAD, 0xBE, 0xEF, 0x42]);
}

#[test]
fn server_surface() {
    let server = Server::new(String::from("/dev/ttyACM0"), 4040).unwrap();
    assert!(server.start().is_ok());
    assert!(server.transfer().is_ok());
}
