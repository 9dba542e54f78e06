//! Verified core of a power-event daemon: exact codecs for the kernel's
//! fixed-layout event records, the generic-netlink family resolution and
//! event framing, and the decisions of the plugin dispatch layer.

pub mod bytes;
pub mod codec;
pub mod netlink;
pub mod dispatch;
