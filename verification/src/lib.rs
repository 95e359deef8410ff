//! Host-side library for an ESB bridge device on a serial link.
//!
//! The wire protocol moves fixed 64-byte frames with a sync byte, an
//! id/err/length header and a CRC-16/CCITT-FALSE checksum. On top of that,
//! addressed ESB radio packets are encapsulated inside frame payloads and
//! routed to per-command listeners.
//!
//! The layers, bottom up:
//! * [`usb_protocol`] — the framer: encode and decode of 64-byte frames.
//! * [`listener`] — the table mapping command ids to delivery sinks.
//! * [`worker`] — the link worker's decisions: what to write, and where
//!   each inbound frame goes.
//! * [`esb`] — ESB messages and their encapsulation in frame payloads.
//! * [`bridge`] — command codes and the pure parts of the bridge facade.
//! * [`server`] — the surface of a remote-access server, not yet wired up.

pub mod bridge;
pub mod esb;
pub mod listener;
pub mod server;
pub mod usb_protocol;
pub mod worker;
