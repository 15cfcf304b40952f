//! The bytes of an input message.
//!
//! A message travels as a FlatBuffers buffer with a root table of two
//! fields, the event (a byte) and the payload (a table). The payload table
//! has four fields: three 32-bit numbers and a string. Reading is done with
//! care for nothing but the bounds of the buffer and the encoding of the
//! string: whatever the bytes are, the reader comes back, with a message or
//! without one. It asks less of a buffer than a FlatBuffers verifier does:
//! the alignment of fields and the zero byte behind a string are not looked
//! at.
//!
//! Writing is the work of the `flatbuffers` builder: which calls it gets is
//! decided here, by the shape of the message, and what it writes is believed.

use vstd::prelude::*;
use vstd::utf8::{decode_utf8, encode_utf8, valid_utf8};
use flatbuffers::FlatBufferBuilder;
use crate::input::{input_view, InputMessage, InputMessageView, Payload, PayloadView};

verus! {

/// The 16-bit number that stands at `at`, low byte first, if the buffer
/// reaches that far.
pub open spec fn le16(bytes: Seq<u8>, at: int) -> Option<int> {
    if 0 <= at && at + 2 <= bytes.len() {
        Some(bytes[at] + 256 * bytes[at + 1])
    } else {
        None
    }
}

/// The 32-bit number that stands at `at`, low byte first, if the buffer
/// reaches that far.
pub open spec fn le32(bytes: Seq<u8>, at: int) -> Option<int> {
    if 0 <= at && at + 4 <= bytes.len() {
        Some(
            bytes[at] + 256 * bytes[at + 1] + 65536 * bytes[at + 2] + 16777216 * bytes[at + 3],
        )
    } else {
        None
    }
}

/// A 32-bit number read as a signed one.
pub open spec fn signed(value: int) -> int {
    if value >= 0x8000_0000 {
        value - 0x1_0000_0000
    } else {
        value
    }
}

/// Where a field stands.
pub enum Field {
    /// The buffer ends before the place where that would be said.
    Broken,
    /// The table does not hold the field: the field has its default.
    Absent,
    /// The field stands at this place.
    At(int),
}

/// Where the field in `slot` of the table at `table` stands. The table
/// begins with the distance back to its list of fields; the list begins with
/// its own length and the length of the table, two bytes each, and goes on
/// with the distance of each field from the table, two bytes each, 0 for a
/// field that the table does not hold.
pub open spec fn field_at(bytes: Seq<u8>, table: int, slot: int) -> Field {
    match le32(bytes, table) {
        None => Field::Broken,
        Some(back) => {
            let list = table - signed(back);
            match le16(bytes, list) {
                None => Field::Broken,
                Some(length) => if 4 + 2 * slot + 2 > length {
                    Field::Absent
                } else {
                    match le16(bytes, list + 4 + 2 * slot) {
                        None => Field::Broken,
                        Some(distance) => if distance == 0 {
                            Field::Absent
                        } else {
                            Field::At(table + distance)
                        },
                    }
                },
            }
        },
    }
}

/// The place that the reference at `at` points to: as far behind `at` as
/// the 32-bit number at `at` says.
pub open spec fn target(bytes: Seq<u8>, at: int) -> Option<int> {
    match le32(bytes, at) {
        Some(distance) => Some(at + distance),
        None => None,
    }
}

/// The signed 32-bit number in `slot` of the table at `table`; 0 if the
/// table does not hold it.
pub open spec fn number_in(bytes: Seq<u8>, table: int, slot: int) -> Option<int> {
    match field_at(bytes, table, slot) {
        Field::Broken => None,
        Field::Absent => Some(0),
        Field::At(at) => match le32(bytes, at) {
            Some(value) => Some(signed(value)),
            None => None,
        },
    }
}

/// The bytes of the string at `at`: their number, four bytes, and then they
/// themselves.
pub open spec fn string_bytes(bytes: Seq<u8>, at: int) -> Option<Seq<u8>> {
    match le32(bytes, at) {
        Some(length) => if at + 4 + length <= bytes.len() {
            Some(bytes.subrange(at + 4, at + 4 + length))
        } else {
            None
        },
        None => None,
    }
}

/// The text in `slot` of the table at `table`: `Some(None)` if the table
/// does not hold it, `None` if the buffer is broken there or the bytes are no
/// UTF-8.
pub open spec fn text_in(bytes: Seq<u8>, table: int, slot: int) -> Option<Option<Seq<char>>> {
    match field_at(bytes, table, slot) {
        Field::Broken => None,
        Field::Absent => Some(None),
        Field::At(at) => match target(bytes, at) {
            None => None,
            Some(string) => match string_bytes(bytes, string) {
                None => None,
                Some(raw) => if valid_utf8(raw) {
                    Some(Some(decode_utf8(raw)))
                } else {
                    None
                },
            },
        },
    }
}

/// The payload in the table at `table`.
pub open spec fn payload_at(bytes: Seq<u8>, table: int) -> Option<PayloadView> {
    match (
        number_in(bytes, table, 0),
        number_in(bytes, table, 1),
        number_in(bytes, table, 2),
        text_in(bytes, table, 3),
    ) {
        (Some(p1), Some(p2), Some(p3), Some(p4)) => Some(
            PayloadView { p1: p1 as i32, p2: p2 as i32, p3: p3 as i32, p4 },
        ),
        _ => None,
    }
}

/// The event in the table at `table`: the byte in slot 0, or 0 if the table
/// does not hold it.
pub open spec fn event_in(bytes: Seq<u8>, table: int) -> Option<u8> {
    match field_at(bytes, table, 0) {
        Field::Broken => None,
        Field::Absent => Some(0u8),
        Field::At(at) => if 0 <= at < bytes.len() {
            Some(bytes[at])
        } else {
            None
        },
    }
}

/// The payload of the table at `table`: the table that slot 1 refers to;
/// `Some(None)` if the table holds no payload.
pub open spec fn payload_in(bytes: Seq<u8>, table: int) -> Option<Option<PayloadView>> {
    match field_at(bytes, table, 1) {
        Field::Broken => None,
        Field::Absent => Some(None),
        Field::At(at) => match target(bytes, at) {
            None => None,
            Some(payload) => match payload_at(bytes, payload) {
                Some(p) => Some(Some(p)),
                None => None,
            },
        },
    }
}

/// The message that a buffer holds, if it holds one: the buffer begins with
/// the place of its root table.
pub open spec fn message_in(bytes: Seq<u8>) -> Option<InputMessageView> {
    match le32(bytes, 0) {
        None => None,
        Some(root) => match (event_in(bytes, root), payload_in(bytes, root)) {
            (Some(event), Some(payload)) => Some(InputMessageView { event, payload }),
            _ => None,
        },
    }
}

/// The places that the reader can come to lie within this distance of 0.
pub open spec fn near(at: int) -> bool {
    -0x100_0000_0000 < at < 0x100_0000_0000
}

/// Calls `String::from_utf8`.
///
/// Believed, as documented: it succeeds exactly on bytes that are UTF-8, and
/// then gives the text that the bytes encode.
#[verifier::external_body]
fn text_of(raw: Vec<u8>) -> (text: Option<String>)
    ensures
        text is Some <==> valid_utf8(raw@),
        text matches Some(t) ==> t@ == decode_utf8(raw@),
{
    String::from_utf8(raw).ok()
}

fn read16(bytes: &[u8], at: i64) -> (value: Option<i64>)
    requires
        near(at as int),
    ensures
        match value {
            Some(v) => le16(bytes@, at as int) == Some(v as int) && 0 <= v < 0x1_0000,
            None => le16(bytes@, at as int) is None,
        },
{
    if at < 0 || (at as u64) + 2 > bytes.len() as u64 {
        return None;
    }
    let i = at as usize;
    Some(bytes[i] as i64 + 256 * (bytes[i + 1] as i64))
}

fn read32(bytes: &[u8], at: i64) -> (value: Option<i64>)
    requires
        near(at as int),
    ensures
        match value {
            Some(v) => le32(bytes@, at as int) == Some(v as int) && 0 <= v < 0x1_0000_0000,
            None => le32(bytes@, at as int) is None,
        },
{
    if at < 0 || (at as u64) + 4 > bytes.len() as u64 {
        return None;
    }
    let i = at as usize;
    Some(
        bytes[i] as i64 + 256 * (bytes[i + 1] as i64) + 65536 * (bytes[i + 2] as i64) + 16777216
            * (bytes[i + 3] as i64),
    )
}

fn as_signed(value: i64) -> (s: i64)
    requires
        0 <= value < 0x1_0000_0000,
    ensures
        s == signed(value as int),
        -0x8000_0000 <= s < 0x8000_0000,
{
    if value >= 0x8000_0000 {
        value - 0x1_0000_0000
    } else {
        value
    }
}

/// Where a field stands, for the reader.
enum Found {
    Broken,
    Absent,
    At(i64),
}

impl Found {
    spec fn field(self) -> Field {
        match self {
            Found::Broken => Field::Broken,
            Found::Absent => Field::Absent,
            Found::At(at) => Field::At(at as int),
        }
    }
}

fn find_field(bytes: &[u8], table: i64, slot: i64) -> (found: Found)
    requires
        -0x10_0000_0000 < table < 0x10_0000_0000,
        0 <= slot < 4,
    ensures
        found.field() == field_at(bytes@, table as int, slot as int),
        found matches Found::At(at) ==> table < at < table + 0x1_0000,
{
    let back = match read32(bytes, table) {
        Some(back) => as_signed(back),
        None => {
            return Found::Broken;
        },
    };
    let list = table - back;
    let length = match read16(bytes, list) {
        Some(length) => length,
        None => {
            return Found::Broken;
        },
    };
    if 4 + 2 * slot + 2 > length {
        return Found::Absent;
    }
    match read16(bytes, list + 4 + 2 * slot) {
        None => Found::Broken,
        Some(distance) => if distance == 0 {
            Found::Absent
        } else {
            Found::At(table + distance)
        },
    }
}

fn follow(bytes: &[u8], at: i64) -> (to: Option<i64>)
    requires
        -0x20_0000_0000 < at < 0x20_0000_0000,
    ensures
        match to {
            Some(to) => target(bytes@, at as int) == Some(to as int) && at <= to < at
                + 0x1_0000_0000,
            None => target(bytes@, at as int) is None,
        },
{
    match read32(bytes, at) {
        Some(distance) => Some(at + distance),
        None => None,
    }
}

fn read_number(bytes: &[u8], table: i64, slot: i64) -> (value: Option<i32>)
    requires
        -0x10_0000_0000 < table < 0x10_0000_0000,
        0 <= slot < 4,
    ensures
        match value {
            Some(v) => number_in(bytes@, table as int, slot as int) == Some(v as int),
            None => number_in(bytes@, table as int, slot as int) is None,
        },
{
    match find_field(bytes, table, slot) {
        Found::Broken => None,
        Found::Absent => Some(0),
        Found::At(at) => match read32(bytes, at) {
            Some(value) => Some(as_signed(value) as i32),
            None => None,
        },
    }
}

fn read_string(bytes: &[u8], at: i64) -> (raw: Option<Vec<u8>>)
    requires
        -0x40_0000_0000 < at < 0x40_0000_0000,
    ensures
        match raw {
            Some(raw) => string_bytes(bytes@, at as int) == Some(raw@),
            None => string_bytes(bytes@, at as int) is None,
        },
{
    let length = match read32(bytes, at) {
        Some(length) => length,
        None => {
            return None;
        },
    };
    if (at + 4 + length) as u64 > bytes.len() as u64 {
        return None;
    }
    let from = (at + 4) as usize;
    let to = (at + 4 + length) as usize;
    let mut raw: Vec<u8> = Vec::new();
    let mut i = from;
    while i < to
        invariant
            from <= i <= to <= bytes.len(),
            raw@ == bytes@.subrange(from as int, i as int),
        decreases to - i,
    {
        raw.push(bytes[i]);
        assert(raw@ =~= bytes@.subrange(from as int, i as int + 1));
        i += 1;
    }
    Some(raw)
}

fn read_text(bytes: &[u8], table: i64, slot: i64) -> (text: Option<Option<String>>)
    requires
        -0x10_0000_0000 < table < 0x10_0000_0000,
        0 <= slot < 4,
    ensures
        match text {
            Some(Some(t)) => text_in(bytes@, table as int, slot as int) == Some(Some(t@)),
            Some(None) => text_in(bytes@, table as int, slot as int) == Some(
                None::<Seq<char>>,
            ),
            None => text_in(bytes@, table as int, slot as int) is None,
        },
{
    match find_field(bytes, table, slot) {
        Found::Broken => None,
        Found::Absent => Some(None),
        Found::At(at) => {
            let string = match follow(bytes, at) {
                Some(string) => string,
                None => {
                    return None;
                },
            };
            match read_string(bytes, string) {
                None => None,
                Some(raw) => match text_of(raw) {
                    Some(text) => Some(Some(text)),
                    None => None,
                },
            }
        },
    }
}

fn read_payload(bytes: &[u8], table: i64) -> (payload: Option<Payload>)
    requires
        -0x10_0000_0000 < table < 0x10_0000_0000,
    ensures
        match payload {
            Some(p) => payload_at(bytes@, table as int) == Some(p@),
            None => payload_at(bytes@, table as int) is None,
        },
{
    let p1 = read_number(bytes, table, 0);
    let p2 = read_number(bytes, table, 1);
    let p3 = read_number(bytes, table, 2);
    let p4 = read_text(bytes, table, 3);
    match (p1, p2, p3, p4) {
        (Some(p1), Some(p2), Some(p3), Some(p4)) => Some(Payload { p1, p2, p3, p4 }),
        _ => None,
    }
}

/// Reads the input message that a buffer holds. Bytes that hold none, being
/// cut short or otherwise broken, give `None`.
pub fn decode(bytes: &[u8]) -> (message: Option<InputMessage>)
    ensures
        input_view(message) == message_in(bytes@),
{
    let root = match read32(bytes, 0) {
        Some(root) => root,
        None => {
            return None;
        },
    };
    let event = match find_field(bytes, root, 0) {
        Found::Broken => {
            return None;
        },
        Found::Absent => 0u8,
        Found::At(at) => {
            if at < 0 || at as u64 >= bytes.len() as u64 {
                return None;
            }
            bytes[at as usize]
        },
    };
    let payload = match find_field(bytes, root, 1) {
        Found::Broken => {
            return None;
        },
        Found::Absent => None,
        Found::At(at) => {
            let table = match follow(bytes, at) {
                Some(table) => table,
                None => {
                    return None;
                },
            };
            match read_payload(bytes, table) {
                Some(payload) => Some(payload),
                None => {
                    return None;
                },
            }
        },
    };
    Some(InputMessage { event, payload })
}

/// How a message is laid out: the place of each field in the list of fields
/// of its table, and the value that stands for a field that a table leaves
/// out.
#[derive(Clone, Copy, Debug, PartialEq, Eq)]
pub struct Layout {
    pub event: u16,
    pub payload: u16,
    pub p1: u16,
    pub p2: u16,
    pub p3: u16,
    pub p4: u16,
    pub event_default: u8,
    pub number_default: i32,
}

/// Whether a place in a list of fields lies behind the two lengths that the
/// list begins with, and leaves room for its own two bytes.
pub open spec fn is_slot(place: u16) -> bool {
    4 <= place <= 0xfffc
}

impl Layout {
    /// Every field has a place that a list of fields can hold.
    pub open spec fn wf(self) -> bool {
        &&& is_slot(self.event)
        &&& is_slot(self.payload)
        &&& is_slot(self.p1)
        &&& is_slot(self.p2)
        &&& is_slot(self.p3)
        &&& is_slot(self.p4)
    }
}

/// The layout of an input message: the event first and the payload second in
/// the message, the three numbers and the text in this order in the payload,
/// and 0 for every number left out.
pub open spec fn message_layout() -> Layout {
    Layout {
        event: 4,
        payload: 6,
        p1: 4,
        p2: 6,
        p3: 8,
        p4: 10,
        event_default: 0,
        number_default: 0,
    }
}

/// The most bytes of text that a message takes, so that its buffer stays
/// below the two gigabytes that a FlatBuffers buffer may have.
pub const MAX_TEXT_BYTES: usize = 0x7fff_0000;

/// The bytes that the `flatbuffers` builder writes for a message with a
/// given layout.
pub uninterp spec fn flat_message(layout: Layout, m: InputMessageView) -> Seq<u8>;

/// Whether a message can be written: its text, if it has one, is not longer
/// than a message takes.
pub open spec fn fits(m: InputMessageView) -> bool {
    match m.payload {
        Some(p) => match p.p4 {
            Some(text) => encode_utf8(text).len() <= MAX_TEXT_BYTES,
            None => true,
        },
        None => true,
    }
}

/// The bytes of a message, if it can be written.
pub open spec fn message_bytes(m: InputMessageView) -> Option<Seq<u8>> {
    if fits(m) {
        Some(flat_message(message_layout(), m))
    } else {
        None
    }
}

/// Builds a message without a payload with `FlatBufferBuilder::new`,
/// `start_table`, `push_slot`, `end_table`, `finish` and `finished_data` of
/// `flatbuffers`.
///
/// Believed: the outcome is the one named [`flat_message`], which depends on
/// the layout and the event alone.
#[verifier::external_body]
fn flat_bare(layout: &Layout, event: u8) -> (bytes: Vec<u8>)
    requires
        layout.wf(),
    ensures
        bytes@ == flat_message(*layout, InputMessageView { event, payload: None }),
{
    let mut builder = FlatBufferBuilder::new();
    let table = builder.start_table();
    builder.push_slot(layout.event, event, layout.event_default);
    let root = builder.end_table(table);
    builder.finish(root, None);
    builder.finished_data().to_vec()
}

/// Builds a message whose payload has no text, with the same calls as
/// [`flat_bare`], the payload's table before the message's, and
/// `push_slot_always` for the reference from the one to the other.
///
/// Believed: the outcome is the one named [`flat_message`], which depends on
/// the layout, the event and the three numbers alone.
#[verifier::external_body]
fn flat_numbers(layout: &Layout, event: u8, p1: i32, p2: i32, p3: i32) -> (bytes: Vec<u8>)
    requires
        layout.wf(),
    ensures
        bytes@ == flat_message(
            *layout,
            InputMessageView { event, payload: Some(PayloadView { p1, p2, p3, p4: None }) },
        ),
{
    let mut builder = FlatBufferBuilder::new();
    let table = builder.start_table();
    builder.push_slot(layout.p3, p3, layout.number_default);
    builder.push_slot(layout.p2, p2, layout.number_default);
    builder.push_slot(layout.p1, p1, layout.number_default);
    let payload = builder.end_table(table);
    let table = builder.start_table();
    builder.push_slot_always(layout.payload, payload);
    builder.push_slot(layout.event, event, layout.event_default);
    let root = builder.end_table(table);
    builder.finish(root, None);
    builder.finished_data().to_vec()
}

/// Builds a message whose payload has a text, with the same calls as
/// [`flat_numbers`] and `create_string` for the text, before the tables.
///
/// Believed: the outcome is the one named [`flat_message`], which depends on
/// the layout, the event, the three numbers and the text alone. The call is
/// not made on a text of more bytes than [`MAX_TEXT_BYTES`]: the builder
/// takes no buffer of two gigabytes.
#[verifier::external_body]
fn flat_text(layout: &Layout, event: u8, p1: i32, p2: i32, p3: i32, text: &str) -> (bytes: Vec<u8>)
    requires
        layout.wf(),
        encode_utf8(text@).len() <= MAX_TEXT_BYTES,
    ensures
        bytes@ == flat_message(
            *layout,
            InputMessageView { event, payload: Some(PayloadView { p1, p2, p3, p4: Some(text@) }) },
        ),
{
    let mut builder = FlatBufferBuilder::new();
    let text = builder.create_string(text);
    let table = builder.start_table();
    builder.push_slot_always(layout.p4, text);
    builder.push_slot(layout.p3, p3, layout.number_default);
    builder.push_slot(layout.p2, p2, layout.number_default);
    builder.push_slot(layout.p1, p1, layout.number_default);
    let payload = builder.end_table(table);
    let table = builder.start_table();
    builder.push_slot_always(layout.payload, payload);
    builder.push_slot(layout.event, event, layout.event_default);
    let root = builder.end_table(table);
    builder.finish(root, None);
    builder.finished_data().to_vec()
}

/// The layout of an input message.
pub fn layout() -> (layout: Layout)
    ensures
        layout == message_layout(),
        layout.wf(),
{
    Layout {
        event: 4,
        payload: 6,
        p1: 4,
        p2: 6,
        p3: 8,
        p4: 10,
        event_default: 0,
        number_default: 0,
    }
}

/// Writes an input message into the bytes that carry it over a data
/// channel. A message whose text has more bytes than [`MAX_TEXT_BYTES`] is
/// not written.
pub fn encode(message: &InputMessage) -> (bytes: Option<Vec<u8>>)
    ensures
        match bytes {
            Some(b) => message_bytes(message@) == Some(b@),
            None => message_bytes(message@) is None,
        },
{
    let layout = layout();
    match &message.payload {
        None => Some(flat_bare(&layout, message.event)),
        Some(p) => match &p.p4 {
            None => Some(flat_numbers(&layout, message.event, p.p1, p.p2, p.p3)),
            Some(text) => {
                if text.as_str().as_bytes().len() > MAX_TEXT_BYTES {
                    None
                } else {
                    Some(flat_text(&layout, message.event, p.p1, p.p2, p.p3, text.as_str()))
                }
            },
        },
    }
}

} // verus!
