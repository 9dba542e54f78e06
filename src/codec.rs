//! Exact-length codecs for the kernel's fixed-layout event records.
//!
//! Every record has a constant wire size. Encoding and decoding demand a
//! buffer of exactly that size; a fixed-width string field must hold a null
//! byte, and its content is what comes before the first one. Integer fields
//! are held little-endian.

use vstd::prelude::*;
use crate::bytes::{
    le16, le32, le64, u16_bytes, u32_bytes, u64_bytes, lemma_u16_round_trip,
    lemma_u32_round_trip, lemma_u64_round_trip, read_u16, read_u32, read_u64, push_u16, push_u32,
    push_u64, push_zeros, push_slice, copy_into,
};

verus! {

/// Width of the `device_class` field.
pub const DEVICE_CLASS_SIZE: usize = 20;

/// Width of the `bus_id` field.
pub const BUS_ID_SIZE: usize = 16;

/// Wire size of an ACPI event: both string fields and two `u32`.
pub const ACPI_EVENT_SIZE: usize = 44;

/// Wire size of a raw input event: a 64-bit `timeval`, two `u16` and an `i32`.
pub const INPUT_EVENT_SIZE: usize = 24;

/// Why a buffer could not be encoded into or decoded from.
#[derive(Clone, Copy, Debug, PartialEq, Eq, Structural)]
pub enum CodecError {
    /// The buffer is longer than the record.
    BufferTooLarge,
    /// The buffer is shorter than the record.
    BufferTooSmall,
    /// A fixed-width string field has no null byte inside its width.
    MissingTerminator,
}

/// The error that a buffer of length `len` gives for a record of `width` bytes.
pub open spec fn size_error(len: int, width: int) -> Option<CodecError> {
    if len > width {
        Some(CodecError::BufferTooLarge)
    } else if len < width {
        Some(CodecError::BufferTooSmall)
    } else {
        None
    }
}

/// `s` holds a null byte.
pub open spec fn has_terminator(s: Seq<u8>) -> bool {
    exists|i: int| 0 <= i < s.len() && s[i] == 0
}

/// The bytes of `s` before its first null byte (all of `s` if it has none).
pub open spec fn c_str(s: Seq<u8>) -> Seq<u8>
    decreases s.len(),
{
    if s.len() == 0 {
        s
    } else if s[0] == 0 {
        Seq::empty()
    } else {
        seq![s[0]] + c_str(s.drop_first())
    }
}

/// `content` followed by nulls up to `width` bytes.
pub open spec fn c_field(content: Seq<u8>, width: nat) -> Seq<u8> {
    content + Seq::new((width - content.len()) as nat, |i: int| 0u8)
}

/// `content` fits a field of `width` bytes with its terminator and holds no null.
pub open spec fn fits_field(content: Seq<u8>, width: nat) -> bool {
    content.len() < width && forall|i: int| 0 <= i < content.len() ==> content[i] != 0
}

/// What a fixed-width string field decodes to.
pub open spec fn decode_field(s: Seq<u8>) -> Result<Seq<u8>, CodecError> {
    if has_terminator(s) {
        Ok(c_str(s))
    } else {
        Err(CodecError::MissingTerminator)
    }
}

/// What decoding a whole buffer of a string field of `width` bytes gives.
pub open spec fn decode_string_record(s: Seq<u8>, width: nat) -> Result<Seq<u8>, CodecError> {
    match size_error(s.len() as int, width as int) {
        Some(e) => Err(e),
        None => decode_field(s),
    }
}

/// What encoding `content` as a field of `width` bytes into a buffer of `len` bytes gives.
pub open spec fn encode_string_record(content: Seq<u8>, len: nat, width: nat) -> Result<
    Seq<u8>,
    CodecError,
> {
    match size_error(len as int, width as int) {
        Some(e) => Err(e),
        None => if content.len() < width {
            Ok(c_field(content, width))
        } else {
            Err(CodecError::MissingTerminator)
        },
    }
}

/// The content of a field is the prefix before its first null.
proof fn lemma_c_str_prefix(s: Seq<u8>, k: int)
    requires
        0 <= k < s.len(),
        s[k] == 0,
        forall|j: int| 0 <= j < k ==> s[j] != 0,
    ensures
        c_str(s) == s.take(k),
    decreases k,
{
    if k == 0 {
        assert(c_str(s) =~= s.take(0));
    } else {
        let t = s.drop_first();
        assert forall|j: int| 0 <= j < k - 1 implies t[j] != 0 by {
            assert(t[j] == s[j + 1]);
        }
        lemma_c_str_prefix(t, k - 1);
        assert(c_str(s) =~= s.take(k));
    }
}

/// A field written from fitting content decodes to that content.
pub proof fn lemma_field_round_trip(content: Seq<u8>, width: nat)
    requires
        fits_field(content, width),
    ensures
        c_field(content, width).len() == width,
        decode_field(c_field(content, width)) == Ok::<Seq<u8>, CodecError>(content),
{
    let f = c_field(content, width);
    let k = content.len() as int;
    assert(f[k] == 0);
    assert forall|j: int| 0 <= j < k implies f[j] != 0 by {
        assert(f[j] == content[j]);
    }
    lemma_c_str_prefix(f, k);
    assert(f.take(k) =~= content);
}

/// Scans `buf[start..start + width]` for its content and terminator.
fn decode_c_field(buf: &[u8], start: usize, width: usize) -> (r: Result<Vec<u8>, CodecError>)
    requires
        start + width <= buf@.len(),
    ensures
        match r {
            Ok(v) => decode_field(buf@.subrange(start as int, start + width)) == Ok::<
                Seq<u8>,
                CodecError,
            >(v@),
            Err(e) => decode_field(buf@.subrange(start as int, start + width)) == Err::<
                Seq<u8>,
                CodecError,
            >(e),
        },
{
    let ghost s = buf@.subrange(start as int, start + width);
    let mut v: Vec<u8> = Vec::new();
    let n = buf.len();
    let mut i: usize = 0;
    while i < width && buf[start + i] != 0
        invariant
            i <= width,
            n == buf@.len(),
            start + width <= buf@.len(),
            s == buf@.subrange(start as int, start + width),
            v@ == s.take(i as int),
            forall|j: int| 0 <= j < i ==> s[j] != 0,
        decreases width - i,
    {
        v.push(buf[start + i]);
        i = i + 1;
        assert(v@ =~= s.take(i as int));
    }
    if i == width {
        assert(!has_terminator(s));
        Err(CodecError::MissingTerminator)
    } else {
        assert(s[i as int] == 0);
        proof {
            lemma_c_str_prefix(s, i as int);
        }
        Ok(v)
    }
}

/// Appends `content` padded with nulls to `width` bytes.
fn push_c_field(out: &mut Vec<u8>, content: &Vec<u8>, width: usize)
    requires
        content@.len() < width,
    ensures
        final(out)@ == old(out)@ + c_field(content@, width as nat),
{
    push_slice(out, content.as_slice(), 0, content.len());
    assert(content@.subrange(0, content@.len() as int) =~= content@);
    push_zeros(out, width - content.len());
    assert(out@ =~= old(out)@ + c_field(content@, width as nat));
}

/// The `device_class` field of an ACPI event: the callback's selector.
#[derive(Debug, PartialEq, Eq)]
pub struct DeviceClass(pub Vec<u8>);

impl View for DeviceClass {
    type V = Seq<u8>;

    open spec fn view(&self) -> Seq<u8> {
        self.0@
    }
}

impl DeviceClass {
    /// Bytes that the field takes on the wire.
    pub fn wire_size() -> (r: usize)
        ensures
            r == 20,
    {
        DEVICE_CLASS_SIZE
    }

    /// The content, without its terminator.
    pub fn as_bytes(&self) -> (r: &[u8])
        ensures
            r@ == self@,
    {
        self.0.as_slice()
    }

    /// Whether the class is `name`, as a plugin compares it to pick a handler.
    pub fn matches(&self, name: &[u8]) -> (r: bool)
        ensures
            r == (self@ == name@),
    {
        let n = self.0.len();
        if n != name.len() {
            return false;
        }
        let mut k: usize = 0;
        while k < n
            invariant
                k <= n,
                n == self@.len(),
                n == name@.len(),
                forall|j: int| 0 <= j < k ==> self@[j] == name@[j],
            decreases n - k,
        {
            if self.0[k] != name[k] {
                return false;
            }
            k = k + 1;
        }
        assert(self@ =~= name@);
        true
    }

    /// Writes the field into `buf`, which must be exactly its wire size.
    pub fn encode(&self, buf: &mut [u8]) -> (r: Result<(), CodecError>)
        ensures
            match r {
                Ok(()) => encode_string_record(self@, old(buf)@.len(), 20) == Ok::<
                    Seq<u8>,
                    CodecError,
                >(final(buf)@),
                Err(e) => encode_string_record(self@, old(buf)@.len(), 20) == Err::<
                    Seq<u8>,
                    CodecError,
                >(e) && final(buf)@ == old(buf)@,
            },
    {
        encode_string_field(&self.0, buf, DEVICE_CLASS_SIZE)
    }

    /// Reads the field from `buf`, which must be exactly its wire size.
    pub fn decode(buf: &[u8]) -> (r: Result<DeviceClass, CodecError>)
        ensures
            match r {
                Ok(d) => decode_string_record(buf@, 20) == Ok::<Seq<u8>, CodecError>(d@),
                Err(e) => decode_string_record(buf@, 20) == Err::<Seq<u8>, CodecError>(e),
            },
    {
        match decode_string_field(buf, DEVICE_CLASS_SIZE) {
            Ok(v) => Ok(DeviceClass(v)),
            Err(e) => Err(e),
        }
    }
}

/// The `bus_id` field of an ACPI event.
#[derive(Debug, PartialEq, Eq)]
pub struct BusId(pub Vec<u8>);

impl View for BusId {
    type V = Seq<u8>;

    open spec fn view(&self) -> Seq<u8> {
        self.0@
    }
}

impl BusId {
    /// Bytes that the field takes on the wire.
    pub fn wire_size() -> (r: usize)
        ensures
            r == 16,
    {
        BUS_ID_SIZE
    }

    /// The content, without its terminator.
    pub fn as_bytes(&self) -> (r: &[u8])
        ensures
            r@ == self@,
    {
        self.0.as_slice()
    }

    /// Writes the field into `buf`, which must be exactly its wire size.
    pub fn encode(&self, buf: &mut [u8]) -> (r: Result<(), CodecError>)
        ensures
            match r {
                Ok(()) => encode_string_record(self@, old(buf)@.len(), 16) == Ok::<
                    Seq<u8>,
                    CodecError,
                >(final(buf)@),
                Err(e) => encode_string_record(self@, old(buf)@.len(), 16) == Err::<
                    Seq<u8>,
                    CodecError,
                >(e) && final(buf)@ == old(buf)@,
            },
    {
        encode_string_field(&self.0, buf, BUS_ID_SIZE)
    }

    /// Reads the field from `buf`, which must be exactly its wire size.
    pub fn decode(buf: &[u8]) -> (r: Result<BusId, CodecError>)
        ensures
            match r {
                Ok(d) => decode_string_record(buf@, 16) == Ok::<Seq<u8>, CodecError>(d@),
                Err(e) => decode_string_record(buf@, 16) == Err::<Seq<u8>, CodecError>(e),
            },
    {
        match decode_string_field(buf, BUS_ID_SIZE) {
            Ok(v) => Ok(BusId(v)),
            Err(e) => Err(e),
        }
    }
}

/// The size check shared by every record: exact length or an error.
fn check_size(len: usize, width: usize) -> (r: Result<(), CodecError>)
    ensures
        match r {
            Ok(()) => size_error(len as int, width as int) == None::<CodecError>,
            Err(e) => size_error(len as int, width as int) == Some(e),
        },
{
    if len > width {
        Err(CodecError::BufferTooLarge)
    } else if len < width {
        Err(CodecError::BufferTooSmall)
    } else {
        Ok(())
    }
}

fn encode_string_field(content: &Vec<u8>, buf: &mut [u8], width: usize) -> (r: Result<
    (),
    CodecError,
>)
    ensures
        match r {
            Ok(()) => encode_string_record(content@, old(buf)@.len(), width as nat) == Ok::<
                Seq<u8>,
                CodecError,
            >(final(buf)@),
            Err(e) => encode_string_record(content@, old(buf)@.len(), width as nat) == Err::<
                Seq<u8>,
                CodecError,
            >(e) && final(buf)@ == old(buf)@,
        },
{
    check_size(buf.len(), width)?;
    if content.len() >= width {
        return Err(CodecError::MissingTerminator);
    }
    let mut out: Vec<u8> = Vec::new();
    push_c_field(&mut out, content, width);
    assert(out@ =~= c_field(content@, width as nat));
    copy_into(&out, buf);
    Ok(())
}

fn decode_string_field(buf: &[u8], width: usize) -> (r: Result<Vec<u8>, CodecError>)
    ensures
        match r {
            Ok(v) => decode_string_record(buf@, width as nat) == Ok::<Seq<u8>, CodecError>(v@),
            Err(e) => decode_string_record(buf@, width as nat) == Err::<Seq<u8>, CodecError>(e),
        },
{
    check_size(buf.len(), width)?;
    assert(buf@.subrange(0, width as int) =~= buf@);
    decode_c_field(buf, 0, width)
}

/// The mathematical content of an ACPI event.
pub struct AcpiEventView {
    pub device_class: Seq<u8>,
    pub bus_id: Seq<u8>,
    pub event_type: u32,
    pub event_data: u32,
}

/// Both string contents fit their fields: the events that encoding keeps intact.
pub open spec fn acpi_event_fits(v: AcpiEventView) -> bool {
    fits_field(v.device_class, 20) && fits_field(v.bus_id, 16)
}

/// The wire form of an ACPI event: `[device_class: 20][bus_id: 16][event_type][event_data]`.
pub open spec fn acpi_event_bytes(v: AcpiEventView) -> Seq<u8> {
    c_field(v.device_class, 20) + c_field(v.bus_id, 16) + u32_bytes(v.event_type) + u32_bytes(
        v.event_data,
    )
}

/// What decoding the buffer `s` as an ACPI event gives.
pub open spec fn decode_acpi_event(s: Seq<u8>) -> Result<AcpiEventView, CodecError> {
    match size_error(s.len() as int, 44) {
        Some(e) => Err(e),
        None => match decode_field(s.subrange(0, 20)) {
            Err(e) => Err(e),
            Ok(dc) => match decode_field(s.subrange(20, 36)) {
                Err(e) => Err(e),
                Ok(bus) => Ok(
                    AcpiEventView {
                        device_class: dc,
                        bus_id: bus,
                        event_type: le32(s, 36) as u32,
                        event_data: le32(s, 40) as u32,
                    },
                ),
            },
        },
    }
}

/// What encoding `v` into a buffer of `len` bytes gives.
pub open spec fn encode_acpi_event(v: AcpiEventView, len: nat) -> Result<Seq<u8>, CodecError> {
    match size_error(len as int, 44) {
        Some(e) => Err(e),
        None => if v.device_class.len() >= 20 || v.bus_id.len() >= 16 {
            Err(CodecError::MissingTerminator)
        } else {
            Ok(acpi_event_bytes(v))
        },
    }
}

/// A decoded kernel ACPI notification.
#[derive(Debug, PartialEq, Eq)]
pub struct AcpiEvent {
    pub device_class: DeviceClass,
    pub bus_id: BusId,
    pub event_type: u32,
    pub event_data: u32,
}

impl View for AcpiEvent {
    type V = AcpiEventView;

    open spec fn view(&self) -> AcpiEventView {
        AcpiEventView {
            device_class: self.device_class@,
            bus_id: self.bus_id@,
            event_type: self.event_type,
            event_data: self.event_data,
        }
    }
}

impl AcpiEvent {
    /// Bytes that an event takes on the wire.
    pub fn wire_size() -> (r: usize)
        ensures
            r == 44,
    {
        DeviceClass::wire_size() + BusId::wire_size() + 4 + 4
    }

    /// Writes the event into `buf`, which must be exactly its wire size; on
    /// success every byte of `buf` is written, on failure none is.
    pub fn encode(&self, buf: &mut [u8]) -> (r: Result<(), CodecError>)
        ensures
            match r {
                Ok(()) => encode_acpi_event(self@, old(buf)@.len()) == Ok::<Seq<u8>, CodecError>(
                    final(buf)@,
                ),
                Err(e) => encode_acpi_event(self@, old(buf)@.len()) == Err::<Seq<u8>, CodecError>(e)
                    && final(buf)@ == old(buf)@,
            },
    {
        check_size(buf.len(), ACPI_EVENT_SIZE)?;
        if self.device_class.0.len() >= DEVICE_CLASS_SIZE || self.bus_id.0.len() >= BUS_ID_SIZE {
            return Err(CodecError::MissingTerminator);
        }
        let mut out: Vec<u8> = Vec::new();
        push_c_field(&mut out, &self.device_class.0, DEVICE_CLASS_SIZE);
        push_c_field(&mut out, &self.bus_id.0, BUS_ID_SIZE);
        push_u32(&mut out, self.event_type);
        push_u32(&mut out, self.event_data);
        assert(out@ =~= acpi_event_bytes(self@));
        copy_into(&out, buf);
        Ok(())
    }

    /// Reads an event from `buf`, which must be exactly its wire size.
    pub fn decode(buf: &[u8]) -> (r: Result<AcpiEvent, CodecError>)
        ensures
            match r {
                Ok(ev) => decode_acpi_event(buf@) == Ok::<AcpiEventView, CodecError>(ev@),
                Err(e) => decode_acpi_event(buf@) == Err::<AcpiEventView, CodecError>(e),
            },
    {
        check_size(buf.len(), ACPI_EVENT_SIZE)?;
        let dc = decode_c_field(buf, 0, DEVICE_CLASS_SIZE)?;
        let bus = decode_c_field(buf, DEVICE_CLASS_SIZE, BUS_ID_SIZE)?;
        let event_type = read_u32(buf, 36);
        let event_data = read_u32(buf, 40);
        Ok(AcpiEvent { device_class: DeviceClass(dc), bus_id: BusId(bus), event_type, event_data })
    }
}

/// Encoding an event whose strings fit their fields into a buffer of the wire
/// size succeeds, and decoding what was written gives the same event back.
pub proof fn lemma_acpi_round_trip(v: AcpiEventView)
    requires
        acpi_event_fits(v),
    ensures
        acpi_event_bytes(v).len() == 44,
        encode_acpi_event(v, 44) == Ok::<Seq<u8>, CodecError>(acpi_event_bytes(v)),
        decode_acpi_event(acpi_event_bytes(v)) == Ok::<AcpiEventView, CodecError>(v),
{
    let s = acpi_event_bytes(v);
    lemma_field_round_trip(v.device_class, 20);
    lemma_field_round_trip(v.bus_id, 16);
    assert(s.subrange(0, 20) =~= c_field(v.device_class, 20));
    assert(s.subrange(20, 36) =~= c_field(v.bus_id, 16));
    assert(s.subrange(36, 40) =~= u32_bytes(v.event_type));
    assert(s.subrange(40, 44) =~= u32_bytes(v.event_data));
    lemma_u32_round_trip(v.event_type, s, 36);
    lemma_u32_round_trip(v.event_data, s, 40);
}

/// Decoding demands the exact wire size: any other length is a size error.
pub proof fn lemma_acpi_size_mismatch(s: Seq<u8>)
    requires
        s.len() != 44,
    ensures
        s.len() < 44 ==> decode_acpi_event(s) == Err::<AcpiEventView, CodecError>(
            CodecError::BufferTooSmall,
        ),
        s.len() > 44 ==> decode_acpi_event(s) == Err::<AcpiEventView, CodecError>(
            CodecError::BufferTooLarge,
        ),
{
}

/// A `device_class` field of non-null bytes only is a missing terminator, both
/// alone and inside a whole event.
pub proof fn lemma_unterminated_device_class(s: Seq<u8>)
    requires
        s.len() >= 20,
        forall|i: int| 0 <= i < 20 ==> s[i] != 0,
    ensures
        s.len() == 20 ==> decode_string_record(s, 20) == Err::<Seq<u8>, CodecError>(
            CodecError::MissingTerminator,
        ),
        s.len() == 44 ==> decode_acpi_event(s) == Err::<AcpiEventView, CodecError>(
            CodecError::MissingTerminator,
        ),
{
    let f = s.subrange(0, 20);
    assert(!has_terminator(f)) by {
        assert forall|i: int| 0 <= i < f.len() implies f[i] != 0 by {
            assert(f[i] == s[i]);
        }
    }
    if s.len() == 20 {
        assert(f =~= s);
    }
}

/// A raw input-device record, laid out as the kernel's 64-bit `input_event`.
#[derive(Clone, Copy, Debug, PartialEq, Eq, Structural)]
pub struct RawInputEvent {
    pub tv_sec: i64,
    pub tv_usec: i64,
    pub event_type: u16,
    pub event_code: u16,
    pub event_value: i32,
}

/// The wire form of a raw input event.
pub open spec fn input_event_bytes(e: RawInputEvent) -> Seq<u8> {
    u64_bytes(#[verifier::truncate] (e.tv_sec as u64)) + u64_bytes(
        #[verifier::truncate] (e.tv_usec as u64),
    ) + u16_bytes(e.event_type) + u16_bytes(e.event_code) + u32_bytes(
        #[verifier::truncate] (e.event_value as u32),
    )
}

/// What decoding the buffer `s` as a raw input event gives.
pub open spec fn decode_input_event(s: Seq<u8>) -> Result<RawInputEvent, CodecError> {
    match size_error(s.len() as int, 24) {
        Some(e) => Err(e),
        None => Ok(
            RawInputEvent {
                tv_sec: #[verifier::truncate] (le64(s, 0) as i64),
                tv_usec: #[verifier::truncate] (le64(s, 8) as i64),
                event_type: le16(s, 16) as u16,
                event_code: le16(s, 18) as u16,
                event_value: #[verifier::truncate] (le32(s, 20) as i32),
            },
        ),
    }
}

impl RawInputEvent {
    /// Bytes that a record takes on the wire.
    pub fn wire_size() -> (r: usize)
        ensures
            r == 24,
    {
        INPUT_EVENT_SIZE
    }

    /// Writes the record into `buf`, which must be exactly its wire size.
    pub fn encode(&self, buf: &mut [u8]) -> (r: Result<(), CodecError>)
        ensures
            match r {
                Ok(()) => size_error(old(buf)@.len() as int, 24) == None::<CodecError>
                    && final(buf)@ == input_event_bytes(*self),
                Err(e) => size_error(old(buf)@.len() as int, 24) == Some(e) && final(buf)@ == old(
                    buf,
                )@,
            },
    {
        check_size(buf.len(), INPUT_EVENT_SIZE)?;
        let mut out: Vec<u8> = Vec::new();
        push_u64(&mut out, self.tv_sec as u64);
        push_u64(&mut out, self.tv_usec as u64);
        push_u16(&mut out, self.event_type);
        push_u16(&mut out, self.event_code);
        push_u32(&mut out, self.event_value as u32);
        assert(out@ =~= input_event_bytes(*self));
        copy_into(&out, buf);
        Ok(())
    }

    /// Reads a record field by field from `buf`, which must be exactly its wire size.
    pub fn decode(buf: &[u8]) -> (r: Result<RawInputEvent, CodecError>)
        ensures
            r == decode_input_event(buf@),
    {
        check_size(buf.len(), INPUT_EVENT_SIZE)?;
        let tv_sec = read_u64(buf, 0) as i64;
        let tv_usec = read_u64(buf, 8) as i64;
        let event_type = read_u16(buf, 16);
        let event_code = read_u16(buf, 18);
        let event_value = read_u32(buf, 20) as i32;
        Ok(RawInputEvent { tv_sec, tv_usec, event_type, event_code, event_value })
    }
}

/// Decoding the wire form of a raw input event gives the event back.
pub proof fn lemma_input_round_trip(e: RawInputEvent)
    ensures
        input_event_bytes(e).len() == 24,
        decode_input_event(input_event_bytes(e)) == Ok::<RawInputEvent, CodecError>(e),
{
    let s = input_event_bytes(e);
    assert(s.subrange(0, 8) =~= u64_bytes(e.tv_sec as u64));
    assert(s.subrange(8, 16) =~= u64_bytes(e.tv_usec as u64));
    assert(s.subrange(16, 18) =~= u16_bytes(e.event_type));
    assert(s.subrange(18, 20) =~= u16_bytes(e.event_code));
    assert(s.subrange(20, 24) =~= u32_bytes(e.event_value as u32));
    lemma_u64_round_trip(e.tv_sec as u64, s, 0);
    lemma_u64_round_trip(e.tv_usec as u64, s, 8);
    lemma_u16_round_trip(e.event_type, s, 16);
    lemma_u16_round_trip(e.event_code, s, 18);
    lemma_u32_round_trip(e.event_value as u32, s, 20);
    let (a, b, c) = (e.tv_sec, e.tv_usec, e.event_value);
    assert((a as u64) as i64 == a) by (bit_vector);
    assert((b as u64) as i64 == b) by (bit_vector);
    assert((c as u32) as i32 == c) by (bit_vector);
}

} // verus!
