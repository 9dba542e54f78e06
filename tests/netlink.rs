use pwrsurge::codec::CodecError;
use pwrsurge::netlink::{
    decode_event_datagram, family_request, find_attribute, resolve_family_response,
    subscription_bit, subscription_mask, DatagramError, EventStream, FamilyDescriptor,
    ProtocolError, Received, StreamError, ACPI_FAMILY_NAME,
};

fn attr(kind: u16, payload: &[u8]) -> Vec<u8> {
    let mut out = Vec::new();
    out.extend_from_slice(&((4 + payload.len()) as u16).to_le_bytes());
    out.extend_from_slice(&kind.to_le_bytes());
    out.extend_from_slice(payload);
    while out.len() % 4 != 0 {
        out.push(0);
    }
    out
}

fn message(kind: u16, attrs: &[u8]) -> Vec<u8> {
    let mut out = Vec::new();
    out.extend_from_slice(&((20 + attrs.len()) as u32).to_le_bytes());
    out.extend_from_slice(&kind.to_le_bytes());
    out.extend_from_slice(&0u16.to_le_bytes());
    out.extend_from_slice(&1u32.to_le_bytes());
    out.extend_from_slice(&0u32.to_le_bytes());
    out.extend_from_slice(&[1, 2, 0, 0]);
    out.extend_from_slice(attrs);
    out
}

fn group_list(group_id: &[u8]) -> Vec<u8> {
    let mut record = attr(1, b"acpi_mc_group\0");
    record.extend(attr(2, group_id));
    attr(0x8007, &attr(0x8001, &record))
}

fn family_response(family_id: &[u8], groups: Option<Vec<u8>>) -> Vec<u8> {
    let mut attrs = attr(2, b"acpi_event\0");
    attrs.extend(attr(1, family_id));
    attrs.extend(attr(3, &1u32.to_le_bytes()));
    if let Some(g) = groups {
        attrs.extend(g);
    }
    message(16, &attrs)
}

fn battery_record() -> Vec<u8> {
    let mut buf = Vec::new();
    buf.extend_from_slice(b"battery\0\0\0\0\0\0\0\0\0\0\0\0\0");
    buf.extend_from_slice(b"PNP0C0A:00\0\0\0\0\0\0");
    buf.extend_from_slice(&1u32.to_le_bytes());
    buf.extend_from_slice(&0u32.to_le_bytes());
    buf
}

#[test]
fn request_frame_bytes() {
    let frame = family_request(ACPI_FAMILY_NAME.as_bytes(), 9);
    let mut expected = Vec::new();
    expected.extend_from_slice(&36u32.to_le_bytes());
    expected.extend_from_slice(&16u16.to_le_bytes());
    expected.extend_from_slice(&5u16.to_le_bytes());
    expected.extend_from_slice(&9u32.to_le_bytes());
    expected.extend_from_slice(&0u32.to_le_bytes());
    expected.extend_from_slice(&[3, 2, 0, 0]);
    expected.extend_from_slice(&15u16.to_le_bytes());
    expected.extend_from_slice(&2u16.to_le_bytes());
    expected.extend_from_slice(b"acpi_event\0\0");
    assert_eq!(frame, expected);
}

#[test]
fn request_frame_aligned_name() {
    let frame = family_request(b"abc", 0);
    assert_eq!(frame.len(), 28);
    assert_eq!(&frame[20..22], &8u16.to_le_bytes());
    assert_eq!(&frame[24..28], b"abc\0");
}

#[test]
fn response_resolves_family_and_group() {
    let resp = family_response(&0x17u16.to_le_bytes(), Some(group_list(&8u32.to_le_bytes())));
    let d = resolve_family_response(&resp).unwrap();
    assert_eq!(d, FamilyDescriptor { family_id: 0x17, multicast_group_id: 8 });
}

#[test]
fn group_eight_is_bit_seven() {
    assert_eq!(subscription_bit(8), Some(7));
    assert_eq!(subscription_mask(8), Some(128));
    assert_eq!(subscription_bit(1), Some(0));
    assert_eq!(subscription_mask(32), Some(1 << 31));
    assert_eq!(subscription_bit(0), None);
    assert_eq!(subscription_mask(0), None);
    assert_eq!(subscription_mask(33), None);
}

#[test]
fn response_without_group_list_is_malformed() {
    let resp = family_response(&0x17u16.to_le_bytes(), None);
    assert_eq!(resolve_family_response(&resp), Err(ProtocolError::MalformedResponse));
}

#[test]
fn response_with_empty_group_list_is_malformed() {
    let resp = family_response(&0x17u16.to_le_bytes(), Some(attr(7, &[])));
    assert_eq!(resolve_family_response(&resp), Err(ProtocolError::MalformedResponse));
}

#[test]
fn response_with_zero_group_is_malformed() {
    let resp = family_response(&0x17u16.to_le_bytes(), Some(group_list(&0u32.to_le_bytes())));
    assert_eq!(resolve_family_response(&resp), Err(ProtocolError::MalformedResponse));
}

#[test]
fn response_with_wrongly_sized_fields_is_malformed() {
    let resp = family_response(&0x17u32.to_le_bytes(), Some(group_list(&8u32.to_le_bytes())));
    assert_eq!(resolve_family_response(&resp), Err(ProtocolError::MalformedResponse));
    let resp = family_response(&0x17u16.to_le_bytes(), Some(group_list(&8u16.to_le_bytes())));
    assert_eq!(resolve_family_response(&resp), Err(ProtocolError::MalformedResponse));
}

#[test]
fn truncated_response_is_malformed() {
    let resp = family_response(&0x17u16.to_le_bytes(), Some(group_list(&8u32.to_le_bytes())));
    assert_eq!(
        resolve_family_response(&resp[..resp.len() - 1]),
        Err(ProtocolError::MalformedResponse)
    );
    assert_eq!(resolve_family_response(&resp[..19]), Err(ProtocolError::MalformedResponse));
    let mut short = resp.clone();
    short[0..4].copy_from_slice(&40u32.to_le_bytes());
    assert_eq!(resolve_family_response(&short), Err(ProtocolError::MalformedResponse));
}

#[test]
fn error_message_is_family_not_found() {
    let resp = message(2, &(-2i32).to_le_bytes());
    assert_eq!(resolve_family_response(&resp), Err(ProtocolError::FamilyNotFound));
    let other = family_response(&0x17u16.to_le_bytes(), Some(group_list(&8u32.to_le_bytes())));
    let mut other = other;
    other[4..6].copy_from_slice(&3u16.to_le_bytes());
    assert_eq!(resolve_family_response(&other), Err(ProtocolError::MalformedResponse));
}

#[test]
fn attribute_lookup_walks_the_list() {
    let mut list = attr(5, b"abcde");
    list.extend(attr(0x4009, &[1, 2]));
    assert_eq!(find_attribute(&list, 0, list.len(), 5), Some((4, 9)));
    assert_eq!(find_attribute(&list, 0, list.len(), 9), Some((16, 18)));
    assert_eq!(find_attribute(&list, 0, list.len(), 6), None);
    let mut broken = list.clone();
    broken[0..2].copy_from_slice(&3u16.to_le_bytes());
    assert_eq!(find_attribute(&broken, 0, broken.len(), 9), None);
}

#[test]
fn datagram_decodes_to_event() {
    let dgram = message(0x17, &attr(1, &battery_record()));
    let ev = decode_event_datagram(&dgram, 0x17).unwrap();
    assert_eq!(ev.device_class.as_bytes(), b"battery");
    assert_eq!(ev.bus_id.as_bytes(), b"PNP0C0A:00");
    assert_eq!(ev.event_type, 1);
    assert_eq!(ev.event_data, 0);
}

#[test]
fn datagram_errors() {
    let good = message(0x17, &attr(1, &battery_record()));
    assert_eq!(decode_event_datagram(&good[..10], 0x17).unwrap_err(), DatagramError::Truncated);
    assert_eq!(decode_event_datagram(&good, 0x18).unwrap_err(), DatagramError::UnrelatedMessage);
    let empty = message(0x17, &attr(2, &[0; 4]));
    assert_eq!(decode_event_datagram(&empty, 0x17).unwrap_err(), DatagramError::MissingEvent);
    let short = message(0x17, &attr(1, &battery_record()[..40]));
    assert_eq!(
        decode_event_datagram(&short, 0x17).unwrap_err(),
        DatagramError::Codec(CodecError::BufferTooSmall)
    );
}

#[test]
fn stream_skips_two_malformed_then_delivers() {
    let d = FamilyDescriptor { family_id: 0x17, multicast_group_id: 8 };
    let mut stream = EventStream::new(d);
    let first = stream.next_event(Received::Datagram(vec![1, 2, 3]));
    let second = stream.next_event(Received::Datagram(message(0x10, &attr(3, &[0; 4]))));
    let third = stream.next_event(Received::Datagram(message(0x17, &attr(1, &battery_record()))));
    assert_eq!(first.unwrap_err(), StreamError::Malformed(DatagramError::Truncated));
    assert_eq!(second.unwrap_err(), StreamError::Malformed(DatagramError::UnrelatedMessage));
    let ev = third.unwrap();
    assert_eq!(ev.device_class.as_bytes(), b"battery");
    assert!(stream.open);
}

#[test]
fn stream_ends_when_socket_closes() {
    let d = FamilyDescriptor { family_id: 0x17, multicast_group_id: 8 };
    let mut stream = EventStream::new(d);
    let err = stream.next_event(Received::Closed).unwrap_err();
    assert_eq!(err, StreamError::ConnectionClosed);
    assert!(err.is_fatal());
    assert!(!stream.open);
    let later = stream.next_event(Received::Datagram(message(0x17, &attr(1, &battery_record()))));
    assert_eq!(later.unwrap_err(), StreamError::ConnectionClosed);
}

#[test]
fn stream_ends_on_socket_failure() {
    let d = FamilyDescriptor { family_id: 0x17, multicast_group_id: 8 };
    let mut stream = EventStream::new(d);
    let err = stream.next_event(Received::Failed(9)).unwrap_err();
    assert_eq!(err, StreamError::Socket(9));
    assert!(err.is_fatal());
    assert!(!StreamError::Malformed(DatagramError::MissingEvent).is_fatal());
    assert!(!stream.open);
}
