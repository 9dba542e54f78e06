//! Generic-netlink framing: the request that resolves a family by name, the
//! walk over a response's nested attributes, the datagrams of the ACPI event
//! group, and the decisions of the event stream built on them.

use vstd::prelude::*;
use crate::bytes::{
    le16, le32, u16_bytes, u32_bytes, lemma_le32_bounds, read_u16, read_u32, push_u16, push_u32,
    push_zeros, push_slice,
};
use crate::codec::{AcpiEvent, AcpiEventView, CodecError, decode_acpi_event};

verus! {

/// Bytes of a netlink header followed by a generic-netlink header.
pub const GENL_MSG_HDRLEN: usize = 20;

/// Message type of the generic-netlink controller.
pub const GENL_ID_CTRL: u16 = 16;

/// Message type of a netlink error or acknowledgement.
pub const NLMSG_ERROR: u16 = 2;

/// Controller command "get family".
pub const CTRL_CMD_GETFAMILY: u8 = 3;

/// Version of the controller protocol put in requests.
pub const CTRL_VERSION: u8 = 2;

/// Flags of a resolution request: a request that asks for an acknowledgement.
pub const REQUEST_FLAGS: u16 = 5;

/// Controller attribute holding the family id.
pub const CTRL_ATTR_FAMILY_ID: u16 = 1;

/// Controller attribute holding the family name.
pub const CTRL_ATTR_FAMILY_NAME: u16 = 2;

/// Controller attribute holding the list of multicast groups.
pub const CTRL_ATTR_MCAST_GROUPS: u16 = 7;

/// Index, inside the group list, of the group that is joined.
pub const FIRST_MCAST_GROUP: u16 = 1;

/// Attribute of a multicast group record holding its id.
pub const CTRL_ATTR_MCAST_GRP_ID: u16 = 2;

/// Attribute of an ACPI event datagram holding the event record.
pub const ACPI_GENL_ATTR_EVENT: u16 = 1;

/// Name of the kernel's ACPI event family.
pub const ACPI_FAMILY_NAME: &'static str = "acpi_event";

/// `n` rounded up to a multiple of four.
pub open spec fn align4(n: int) -> int {
    n + (4 - n % 4) % 4
}

/// The header of a netlink message.
pub open spec fn nlmsg_header(len: u32, kind: u16, flags: u16, seq: u32, pid: u32) -> Seq<u8> {
    u32_bytes(len) + u16_bytes(kind) + u16_bytes(flags) + u32_bytes(seq) + u32_bytes(pid)
}

/// The attribute that carries `name` as a null-terminated string, padded to four bytes.
pub open spec fn name_attr(name: Seq<u8>) -> Seq<u8> {
    let len: int = 4 + name.len() as int + 1;
    u16_bytes(len as u16) + u16_bytes(2) + name + seq![0u8] + Seq::new(
        (align4(len) - len) as nat,
        |i: int| 0u8,
    )
}

/// The whole frame that asks the controller for the family called `name`.
pub open spec fn family_request_bytes(name: Seq<u8>, seq: u32) -> Seq<u8> {
    let body = seq![CTRL_CMD_GETFAMILY, CTRL_VERSION, 0u8, 0u8] + name_attr(name);
    nlmsg_header((16 + body.len()) as u32, GENL_ID_CTRL, REQUEST_FLAGS, seq, 0) + body
}

/// Builds the request frame that resolves the family called `name`.
pub fn family_request(name: &[u8], seq: u32) -> (r: Vec<u8>)
    requires
        name@.len() <= 65000,
    ensures
        r@ == family_request_bytes(name@, seq),
{
    let n = name.len();
    let attr_len: usize = 4 + n + 1;
    let padded: usize = attr_len + (4 - attr_len % 4) % 4;
    let mut out: Vec<u8> = Vec::new();
    push_u32(&mut out, (16 + 4 + padded) as u32);
    push_u16(&mut out, GENL_ID_CTRL);
    push_u16(&mut out, REQUEST_FLAGS);
    push_u32(&mut out, seq);
    push_u32(&mut out, 0);
    let ghost header = out@;
    out.push(CTRL_CMD_GETFAMILY);
    out.push(CTRL_VERSION);
    out.push(0u8);
    out.push(0u8);
    push_u16(&mut out, attr_len as u16);
    push_u16(&mut out, CTRL_ATTR_FAMILY_NAME);
    push_slice(&mut out, name, 0, n);
    out.push(0u8);
    push_zeros(&mut out, padded - attr_len);
    proof {
        assert(name@.subrange(0, n as int) =~= name@);
        let body = seq![CTRL_CMD_GETFAMILY, CTRL_VERSION, 0u8, 0u8] + name_attr(name@);
        assert(body.len() == 4 + padded);
        assert(header =~= nlmsg_header((16 + body.len()) as u32, GENL_ID_CTRL, REQUEST_FLAGS, seq, 0));
        assert(out@ =~= header + body);
    }
    out
}

/// The kind of the attribute at `pos`, without its nested and byte-order flags.
pub open spec fn attr_kind(s: Seq<u8>, pos: int) -> int {
    le16(s, pos + 2) % 16384
}

/// The payload range of the first attribute of kind `kind` in the list
/// `s[pos..end]`, or `None` if there is none before the list ends or stops
/// being well formed.
pub open spec fn find_attr(s: Seq<u8>, pos: int, end: int, kind: int) -> Option<(int, int)>
    decreases end - pos,
{
    if pos < 0 || pos + 4 > end {
        None
    } else {
        let len = le16(s, pos);
        if len < 4 || pos + len > end {
            None
        } else if attr_kind(s, pos) == kind {
            Some((pos + 4, pos + len))
        } else if pos + align4(len) > end {
            None
        } else {
            find_attr(s, pos + align4(len), end, kind)
        }
    }
}

/// Looks up the first attribute of kind `kind` in `buf[start..end]` and
/// returns the range of its payload.
pub fn find_attribute(buf: &[u8], start: usize, end: usize, kind: u16) -> (r: Option<(usize, usize)>)
    requires
        start <= end <= buf@.len(),
    ensures
        match r {
            Some((a, b)) => find_attr(buf@, start as int, end as int, kind as int) == Some(
                (a as int, b as int),
            ) && start + 4 <= a <= b <= end,
            None => find_attr(buf@, start as int, end as int, kind as int) is None,
        },
{
    let mut pos: usize = start;
    while pos <= end && end - pos >= 4
        invariant
            start <= pos,
            end <= buf@.len(),
            find_attr(buf@, pos as int, end as int, kind as int) == find_attr(
                buf@,
                start as int,
                end as int,
                kind as int,
            ),
        decreases end - pos,
    {
        let len = read_u16(buf, pos) as usize;
        let k = read_u16(buf, pos + 2) % 16384;
        if len < 4 || len > end - pos {
            return None;
        }
        if k == kind % 16384 && kind < 16384 {
            return Some((pos + 4, pos + len));
        }
        let step: usize = len + (4 - len % 4) % 4;
        if step > end - pos {
            assert(find_attr(buf@, (pos + step) as int, end as int, kind as int) is None);
            return None;
        }
        pos = pos + step;
    }
    None
}

/// What a resolution of a family gives: its id and the multicast group to join.
#[derive(Clone, Copy, Debug, PartialEq, Eq, Structural)]
pub struct FamilyDescriptor {
    pub family_id: u16,
    pub multicast_group_id: u32,
}

/// Why a family could not be resolved.
#[derive(Clone, Copy, Debug, PartialEq, Eq, Structural)]
pub enum ProtocolError {
    /// A field that the response must hold is missing, of the wrong size, or
    /// the frame is truncated.
    MalformedResponse,
    /// The kernel answered with an error message, as for an unknown family.
    FamilyNotFound,
}

/// `s` starts with a netlink message whose stated length covers both headers
/// and fits in `s`.
pub open spec fn framed(s: Seq<u8>) -> bool {
    s.len() >= 20 && 20 <= le32(s, 0) <= s.len()
}

/// The payload range of the attribute `kind` inside the attribute whose
/// payload is `outer`.
pub open spec fn find_in(s: Seq<u8>, outer: Option<(int, int)>, kind: int) -> Option<(int, int)> {
    match outer {
        Some((a, b)) => find_attr(s, a, b, kind),
        None => None,
    }
}

/// What the controller's response `s` resolves to: the family id at the top
/// level, and the id of the first group of the group list, two levels down.
pub open spec fn parse_family_response(s: Seq<u8>) -> Result<FamilyDescriptor, ProtocolError> {
    if !framed(s) {
        Err(ProtocolError::MalformedResponse)
    } else if le16(s, 4) == NLMSG_ERROR {
        Err(ProtocolError::FamilyNotFound)
    } else if le16(s, 4) != GENL_ID_CTRL {
        Err(ProtocolError::MalformedResponse)
    } else {
        let end = le32(s, 0);
        let fid = find_attr(s, 20, end, 1);
        let gid = find_in(s, find_in(s, find_attr(s, 20, end, 7), 1), 2);
        match (fid, gid) {
            (Some((fa, fb)), Some((ga, gb))) => if fb - fa != 2 || gb - ga != 4 || le32(s, ga)
                == 0 {
                Err(ProtocolError::MalformedResponse)
            } else {
                Ok(
                    FamilyDescriptor {
                        family_id: le16(s, fa) as u16,
                        multicast_group_id: le32(s, ga) as u32,
                    },
                )
            },
            _ => Err(ProtocolError::MalformedResponse),
        }
    }
}

/// Checks that `buf` starts with a netlink message held whole in it and
/// returns the end of that message.
fn message_end(buf: &[u8]) -> (r: Option<usize>)
    ensures
        match r {
            Some(end) => framed(buf@) && end == le32(buf@, 0),
            None => !framed(buf@),
        },
{
    if buf.len() < GENL_MSG_HDRLEN {
        return None;
    }
    let len = read_u32(buf, 0);
    if len < 20 || len as usize > buf.len() {
        None
    } else {
        Some(len as usize)
    }
}

/// Looks up `kind` inside the payload `outer`, if there is one.
fn find_nested(buf: &[u8], outer: Option<(usize, usize)>, kind: u16) -> (r: Option<(usize, usize)>)
    requires
        match outer {
            Some((a, b)) => a <= b <= buf@.len(),
            None => true,
        },
    ensures
        match r {
            Some((a, b)) => find_in(
                buf@,
                match outer {
                    Some((x, y)) => Some((x as int, y as int)),
                    None => None,
                },
                kind as int,
            ) == Some((a as int, b as int)) && a <= b <= buf@.len(),
            None => find_in(
                buf@,
                match outer {
                    Some((x, y)) => Some((x as int, y as int)),
                    None => None,
                },
                kind as int,
            ) is None,
        },
{
    match outer {
        Some((a, b)) => find_attribute(buf, a, b, kind),
        None => None,
    }
}

/// Parses the controller's answer to a family request. Every step of the
/// descent is checked: a missing or wrongly sized field is an error, never
/// a default.
pub fn resolve_family_response(buf: &[u8]) -> (r: Result<FamilyDescriptor, ProtocolError>)
    ensures
        r == parse_family_response(buf@),
{
    let end = match message_end(buf) {
        Some(end) => end,
        None => return Err(ProtocolError::MalformedResponse),
    };
    let kind = read_u16(buf, 4);
    if kind == NLMSG_ERROR {
        return Err(ProtocolError::FamilyNotFound);
    }
    if kind != GENL_ID_CTRL {
        return Err(ProtocolError::MalformedResponse);
    }
    let fid = find_attribute(buf, GENL_MSG_HDRLEN, end, CTRL_ATTR_FAMILY_ID);
    let groups = find_attribute(buf, GENL_MSG_HDRLEN, end, CTRL_ATTR_MCAST_GROUPS);
    let group = find_nested(buf, groups, FIRST_MCAST_GROUP);
    let gid = find_nested(buf, group, CTRL_ATTR_MCAST_GRP_ID);
    match (fid, gid) {
        (Some((fa, fb)), Some((ga, gb))) => {
            if fb - fa != 2 || gb - ga != 4 {
                return Err(ProtocolError::MalformedResponse);
            }
            let family_id = read_u16(buf, fa);
            let group_id = read_u32(buf, ga);
            if group_id == 0 {
                Err(ProtocolError::MalformedResponse)
            } else {
                Ok(FamilyDescriptor { family_id, multicast_group_id: group_id })
            }
        },
        _ => Err(ProtocolError::MalformedResponse),
    }
}

/// The socket-option bit that joins multicast group `group_id`: kernel group
/// ids count from one, bit positions from zero. Group zero does not exist.
pub fn subscription_bit(group_id: u32) -> (r: Option<u32>)
    ensures
        group_id >= 1 ==> r == Some((group_id - 1) as u32),
        group_id == 0 ==> r is None,
{
    if group_id == 0 {
        None
    } else {
        Some(group_id - 1)
    }
}

/// The group bitmask that binds a socket to multicast group `group_id`;
/// only groups one to thirty-two have a bit in it.
pub fn subscription_mask(group_id: u32) -> (r: Option<u32>)
    ensures
        1 <= group_id <= 32 ==> r == Some(1u32 << ((group_id - 1) as u32)),
        (group_id == 0 || group_id > 32) ==> r is None,
{
    if group_id == 0 || group_id > 32 {
        None
    } else {
        Some(1u32 << (group_id - 1))
    }
}

/// Why one datagram of the event group gave no event.
#[derive(Clone, Copy, Debug, PartialEq, Eq, Structural)]
pub enum DatagramError {
    /// The datagram does not hold a whole netlink message.
    Truncated,
    /// The message is not of the resolved family: unrelated traffic.
    UnrelatedMessage,
    /// The message has no event attribute.
    MissingEvent,
    /// The event attribute does not decode as an ACPI event.
    Codec(CodecError),
}

/// What a datagram of the family `family_id` decodes to.
pub open spec fn parse_event_datagram(s: Seq<u8>, family_id: u16) -> Result<
    AcpiEventView,
    DatagramError,
> {
    if !framed(s) {
        Err(DatagramError::Truncated)
    } else if le16(s, 4) != family_id {
        Err(DatagramError::UnrelatedMessage)
    } else {
        match find_attr(s, 20, le32(s, 0), 1) {
            None => Err(DatagramError::MissingEvent),
            Some((a, b)) => match decode_acpi_event(s.subrange(a, b)) {
                Ok(v) => Ok(v),
                Err(e) => Err(DatagramError::Codec(e)),
            },
        }
    }
}

/// Decodes one datagram of the family `family_id` into an ACPI event.
pub fn decode_event_datagram(buf: &[u8], family_id: u16) -> (r: Result<AcpiEvent, DatagramError>)
    ensures
        match r {
            Ok(ev) => parse_event_datagram(buf@, family_id) == Ok::<AcpiEventView, DatagramError>(
                ev@,
            ),
            Err(e) => parse_event_datagram(buf@, family_id) == Err::<AcpiEventView, DatagramError>(
                e,
            ),
        },
{
    let end = match message_end(buf) {
        Some(end) => end,
        None => return Err(DatagramError::Truncated),
    };
    if read_u16(buf, 4) != family_id {
        return Err(DatagramError::UnrelatedMessage);
    }
    match find_attribute(buf, GENL_MSG_HDRLEN, end, ACPI_GENL_ATTR_EVENT) {
        None => Err(DatagramError::MissingEvent),
        Some((a, b)) => {
            let mut payload: Vec<u8> = Vec::new();
            push_slice(&mut payload, buf, a, b);
            assert(payload@ =~= buf@.subrange(a as int, b as int));
            match AcpiEvent::decode(payload.as_slice()) {
                Ok(ev) => Ok(ev),
                Err(e) => Err(DatagramError::Codec(e)),
            }
        },
    }
}

/// What one blocking receive on the event socket came back with.
#[derive(Debug)]
pub enum Received {
    /// A datagram arrived.
    Datagram(Vec<u8>),
    /// The peer closed the socket.
    Closed,
    /// The receive failed with this OS error code.
    Failed(i32),
}

/// Why the event stream gave no event for one receive.
#[derive(Clone, Copy, Debug, PartialEq, Eq, Structural)]
pub enum StreamError {
    /// One malformed or unrelated datagram; the stream goes on.
    Malformed(DatagramError),
    /// The socket was closed: the stream is over.
    ConnectionClosed,
    /// The socket failed with this OS error code: the stream is over.
    Socket(i32),
}

impl StreamError {
    /// Whether the error ends the stream, as opposed to dropping one message.
    pub fn is_fatal(&self) -> (r: bool)
        ensures
            r == !(*self is Malformed),
    {
        match self {
            StreamError::Malformed(_) => false,
            _ => true,
        }
    }
}

/// The decisions of the multicast listener for one resolved family: each
/// receive is decoded on its own, malformed datagrams are reported one by one
/// and skipped, and a closed or failed socket ends the stream.
pub struct EventStream {
    pub descriptor: FamilyDescriptor,
    pub open: bool,
}

/// What the stream returns for one receive, and whether it stays open.
pub open spec fn stream_step(family_id: u16, open: bool, got: Received) -> (
    Result<AcpiEventView, StreamError>,
    bool,
) {
    if !open {
        (Err(StreamError::ConnectionClosed), false)
    } else {
        match got {
            Received::Datagram(d) => match parse_event_datagram(d@, family_id) {
                Ok(v) => (Ok(v), true),
                Err(e) => (Err(StreamError::Malformed(e)), true),
            },
            Received::Closed => (Err(StreamError::ConnectionClosed), false),
            Received::Failed(code) => (Err(StreamError::Socket(code)), false),
        }
    }
}

impl EventStream {
    /// A stream of the events of the family that `descriptor` resolved.
    pub fn new(descriptor: FamilyDescriptor) -> (r: EventStream)
        ensures
            r.descriptor == descriptor,
            r.open,
    {
        EventStream { descriptor, open: true }
    }

    /// Handles what one receive came back with.
    pub fn next_event(&mut self, got: Received) -> (r: Result<AcpiEvent, StreamError>)
        ensures
            final(self).descriptor == old(self).descriptor,
            final(self).open == stream_step(old(self).descriptor.family_id, old(self).open, got).1,
            match r {
                Ok(ev) => stream_step(old(self).descriptor.family_id, old(self).open, got).0
                    == Ok::<AcpiEventView, StreamError>(ev@),
                Err(e) => stream_step(old(self).descriptor.family_id, old(self).open, got).0
                    == Err::<AcpiEventView, StreamError>(e),
            },
    {
        if !self.open {
            return Err(StreamError::ConnectionClosed);
        }
        match got {
            Received::Datagram(d) => match decode_event_datagram(d.as_slice(), self.descriptor.family_id) {
                Ok(ev) => Ok(ev),
                Err(e) => Err(StreamError::Malformed(e)),
            },
            Received::Closed => {
                self.open = false;
                Err(StreamError::ConnectionClosed)
            },
            Received::Failed(code) => {
                self.open = false;
                Err(StreamError::Socket(code))
            },
        }
    }
}

/// A controller response without a multicast-group list resolves to
/// `MalformedResponse`, never to a descriptor.
pub proof fn lemma_missing_groups_malformed(s: Seq<u8>)
    requires
        framed(s) ==> find_attr(s, 20, le32(s, 0), 7) is None,
        framed(s) ==> le16(s, 4) != NLMSG_ERROR,
    ensures
        parse_family_response(s) == Err::<FamilyDescriptor, ProtocolError>(
            ProtocolError::MalformedResponse,
        ),
{
}

/// A resolved group id is never zero, so it always has a subscription bit.
pub proof fn lemma_resolved_group_nonzero(s: Seq<u8>)
    ensures
        parse_family_response(s) matches Ok(d) ==> d.multicast_group_id >= 1,
{
    if framed(s) && le16(s, 4) == GENL_ID_CTRL {
        let gid = find_in(s, find_in(s, find_attr(s, 20, le32(s, 0), 7), 1), 2);
        if let Some((ga, gb)) = gid {
            if gb - ga == 4 && ga >= 0 && gb <= s.len() {
                lemma_le32_bounds(s, ga);
            }
        }
    }
}

/// A malformed or unrelated datagram on an open stream is reported on its own
/// and leaves the stream open; only a closed or failed socket ends it.
pub proof fn lemma_malformed_keeps_stream_open(family_id: u16, d: Vec<u8>)
    requires
        parse_event_datagram(d@, family_id) is Err,
    ensures
        stream_step(family_id, true, Received::Datagram(d)) == (
            Err::<AcpiEventView, StreamError>(
                StreamError::Malformed(parse_event_datagram(d@, family_id)->Err_0),
            ),
            true,
        ),
{
}

} // verus!
