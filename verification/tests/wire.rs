use flatbuffers::{FlatBufferBuilder, WIPOffset};
use lindows::input::{InputMessage, Payload};
use lindows::wire::{decode, encode, layout, MAX_TEXT_BYTES};

fn build(event: u8, payload: Option<(i32, i32, i32, Option<&str>)>) -> Vec<u8> {
    let mut b = FlatBufferBuilder::new();
    let mut inner: Option<WIPOffset<flatbuffers::TableFinishedWIPOffset>> = None;
    if let Some((p1, p2, p3, p4)) = payload {
        let mut text = None;
        if let Some(t) = p4 {
            text = Some(b.create_string(t));
        }
        let start = b.start_table();
        if let Some(t) = text {
            b.push_slot_always(10, t);
        }
        b.push_slot::<i32>(8, p3, 0);
        b.push_slot::<i32>(6, p2, 0);
        b.push_slot::<i32>(4, p1, 0);
        inner = Some(b.end_table(start));
    }
    let start = b.start_table();
    if let Some(p) = inner {
        b.push_slot_always(6, p);
    }
    b.push_slot::<u8>(4, event, 0);
    let root = b.end_table(start);
    b.finish(root, None);
    b.finished_data().to_vec()
}

fn numbers(p1: i32, p2: i32, p3: i32) -> Option<Payload> {
    Some(Payload { p1, p2, p3, p4: None })
}

#[test]
fn key_message_reads_back() {
    let bytes = build(0x41, Some((0, 0, 0, None)));
    assert_eq!(decode(&bytes), Some(InputMessage { event: 0x41, payload: numbers(0, 0, 0) }));
    let bytes = build(0x41, Some((0, 0, 1, None)));
    assert_eq!(decode(&bytes), Some(InputMessage { event: 0x41, payload: numbers(0, 0, 1) }));
}

#[test]
fn message_without_payload_reads_back() {
    let bytes = build(2, None);
    assert_eq!(decode(&bytes), Some(InputMessage { event: 2, payload: None }));
}

#[test]
fn numbers_read_back_with_their_signs() {
    let bytes = build(1, Some((10000, -1, i32::MIN, None)));
    assert_eq!(
        decode(&bytes),
        Some(InputMessage { event: 1, payload: numbers(10000, -1, i32::MIN) })
    );
    let bytes = build(1, Some((i32::MAX, 5000, -120, None)));
    assert_eq!(
        decode(&bytes),
        Some(InputMessage { event: 1, payload: numbers(i32::MAX, 5000, -120) })
    );
}

#[test]
fn text_reads_back() {
    let bytes = build(0x56, Some((0, 0, 0, Some("copied text, with \u{e9} and \u{4e2d}"))));
    assert_eq!(
        decode(&bytes),
        Some(InputMessage {
            event: 0x56,
            payload: Some(Payload {
                p1: 0,
                p2: 0,
                p3: 0,
                p4: Some("copied text, with \u{e9} and \u{4e2d}".to_string()),
            }),
        })
    );
}

#[test]
fn empty_text_reads_back() {
    let bytes = build(0x56, Some((1, 2, 3, Some(""))));
    assert_eq!(
        decode(&bytes),
        Some(InputMessage {
            event: 0x56,
            payload: Some(Payload { p1: 1, p2: 2, p3: 3, p4: Some(String::new()) }),
        })
    );
}

#[test]
fn event_zero_is_the_default() {
    let bytes = build(0, Some((7, 8, 9, None)));
    assert_eq!(decode(&bytes), Some(InputMessage { event: 0, payload: numbers(7, 8, 9) }));
}

#[test]
fn every_cut_of_a_message_is_survived() {
    let bytes = build(0x56, Some((1, -2, 3, Some("text"))));
    for cut in 0..bytes.len() {
        let _ = decode(&bytes[..cut]);
    }
    assert!(decode(&[]).is_none());
    assert!(decode(&bytes[..3]).is_none());
    assert!(decode(&bytes[..8]).is_none());
}

#[test]
fn every_flipped_byte_is_survived() {
    let bytes = build(0x56, Some((1, -2, 3, Some("text"))));
    for at in 0..bytes.len() {
        let mut broken = bytes.clone();
        broken[at] ^= 0xff;
        let _ = decode(&broken);
    }
}

#[test]
fn root_beyond_the_buffer_is_no_message() {
    assert!(decode(&[0xff, 0xff, 0xff, 0x7f]).is_none());
    assert!(decode(&[0xff, 0xff, 0xff, 0xff, 0, 0, 0, 0]).is_none());
    assert!(decode(&[4, 0, 0, 0]).is_none());
}

#[test]
fn text_that_is_no_utf8_is_no_message() {
    let mut bytes = build(0x56, Some((0, 0, 0, Some("abcd"))));
    let at = bytes.windows(4).position(|w| w == b"abcd").expect("the text");
    bytes[at] = 0xff;
    assert!(decode(&bytes).is_none());
}

#[test]
fn smallest_table_is_a_message_of_defaults() {
    let bytes = [8u8, 0, 0, 0, 4, 0, 4, 0, 4, 0, 0, 0];
    assert_eq!(decode(&bytes), Some(InputMessage { event: 0, payload: None }));
}

fn message(event: u8, payload: Option<(i32, i32, i32, Option<&str>)>) -> InputMessage {
    InputMessage {
        event,
        payload: payload.map(|(p1, p2, p3, p4)| Payload {
            p1,
            p2,
            p3,
            p4: p4.map(|t| t.to_string()),
        }),
    }
}

fn shapes() -> Vec<(u8, Option<(i32, i32, i32, Option<&'static str>)>)> {
    vec![
        (2, None),
        (0, None),
        (0x41, Some((0, 0, 0, None))),
        (0x41, Some((0, 0, 1, None))),
        (1, Some((10000, -1, i32::MIN, None))),
        (1, Some((4, 0, 0, None))),
        (0x56, Some((0, 0, 0, Some("clip")))),
        (0x56, Some((1, -2, 3, Some("")))),
        (0x7f, Some((i32::MAX, 0, 7, Some("\u{e9}\u{4e2d}\u{1f600}")))),
    ]
}

#[test]
fn written_message_is_what_the_builder_writes() {
    for (event, payload) in shapes() {
        let written = encode(&message(event, payload)).expect("bytes");
        assert_eq!(written, build(event, payload));
    }
}

#[test]
fn written_message_reads_back() {
    for (event, payload) in shapes() {
        let m = message(event, payload);
        let written = encode(&m).expect("bytes");
        assert_eq!(decode(&written), Some(m));
    }
}

#[test]
fn bare_message_has_its_bytes() {
    let written = encode(&message(0x41, None)).expect("bytes");
    assert_eq!(
        written,
        vec![12u8, 0, 0, 0, 0, 0, 6, 0, 8, 0, 7, 0, 6, 0, 0, 0, 0, 0, 0, 0x41]
    );
}

#[test]
fn layout_puts_the_event_first() {
    let l = layout();
    assert_eq!((l.event, l.payload), (4, 6));
    assert_eq!((l.p1, l.p2, l.p3, l.p4), (4, 6, 8, 10));
    assert_eq!((l.event_default, l.number_default), (0, 0));
    assert_eq!(MAX_TEXT_BYTES, 0x7fff_0000);
}

#[test]
fn long_text_is_written_too() {
    let text = "x".repeat(100_000);
    let m = message(0x56, Some((0, 0, 0, Some(&text))));
    let written = encode(&m).expect("bytes");
    assert_eq!(decode(&written), Some(m));
}
