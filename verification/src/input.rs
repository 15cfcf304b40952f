//! Input messages: what a viewer sends over the data channels `key`, `mouse`
//! and `common`, and what the host makes of it.
//!
//! The codes of the events are a table that viewer and host share; here a
//! code is a byte, and a byte of 0x80 or more stands for no event.

use vstd::prelude::*;
use crate::signal::is_word;

verus! {

/// The four values that go with an event.
#[derive(Clone, Debug, PartialEq, Eq)]
pub struct Payload {
    pub p1: i32,
    pub p2: i32,
    pub p3: i32,
    pub p4: Option<String>,
}

/// An input message: the code of an event and, for most events, a payload.
#[derive(Clone, Debug, PartialEq, Eq)]
pub struct InputMessage {
    pub event: u8,
    pub payload: Option<Payload>,
}

/// The mathematical value of a [`Payload`].
pub struct PayloadView {
    pub p1: i32,
    pub p2: i32,
    pub p3: i32,
    pub p4: Option<Seq<char>>,
}

/// The mathematical value of an [`InputMessage`].
pub struct InputMessageView {
    pub event: u8,
    pub payload: Option<PayloadView>,
}

impl View for Payload {
    type V = PayloadView;

    open spec fn view(&self) -> PayloadView {
        PayloadView {
            p1: self.p1,
            p2: self.p2,
            p3: self.p3,
            p4: match self.p4 {
                Some(text) => Some(text@),
                None => None,
            },
        }
    }
}

impl View for InputMessage {
    type V = InputMessageView;

    open spec fn view(&self) -> InputMessageView {
        InputMessageView {
            event: self.event,
            payload: match self.payload {
                Some(payload) => Some(payload@),
                None => None,
            },
        }
    }
}

/// The view of an optional message.
pub open spec fn input_view(m: Option<InputMessage>) -> Option<InputMessageView> {
    match m {
        Some(m) => Some(m@),
        None => None,
    }
}

/// A payload of three numbers and no text.
pub open spec fn numbers(p1: i32, p2: i32, p3: i32) -> Option<PayloadView> {
    Some(PayloadView { p1, p2, p3, p4: None })
}

/// The codes of the pointer events, from the table that viewer and host
/// share.
#[derive(Clone, Copy, Debug, PartialEq, Eq)]
pub struct PointerCodes {
    pub moved: u8,
    pub left_down: u8,
    pub left_up: u8,
    pub middle_down: u8,
    pub middle_up: u8,
    pub right_down: u8,
    pub right_up: u8,
    /// One of the two extra buttons went down; the payload says which.
    pub x_down: u8,
    /// One of the two extra buttons came up; the payload says which.
    pub x_up: u8,
    pub wheel: u8,
}

/// The message for a pointer that moved to the given place, each coordinate
/// as a ratio of the picture's extent in units of 1/10000.
pub open spec fn moved_to(codes: PointerCodes, x_ratio: i32, y_ratio: i32) -> InputMessageView {
    InputMessageView { event: codes.moved, payload: numbers(x_ratio, y_ratio, 0) }
}

/// The message for a button that went down. The buttons are numbered as the
/// browser numbers them: 0 left, 1 middle, 2 right, 3 and 4 the two extra
/// ones. Another number stands for no button.
pub open spec fn pressed(codes: PointerCodes, button: i16) -> Option<InputMessageView> {
    if button == 0 {
        Some(InputMessageView { event: codes.left_down, payload: None })
    } else if button == 1 {
        Some(InputMessageView { event: codes.middle_down, payload: None })
    } else if button == 2 {
        Some(InputMessageView { event: codes.right_down, payload: None })
    } else if button == 3 {
        Some(InputMessageView { event: codes.x_down, payload: numbers(1, 0, 0) })
    } else if button == 4 {
        Some(InputMessageView { event: codes.x_down, payload: numbers(2, 0, 0) })
    } else {
        None
    }
}

/// The message for a button that came up.
pub open spec fn released(codes: PointerCodes, button: i16) -> Option<InputMessageView> {
    if button == 0 {
        Some(InputMessageView { event: codes.left_up, payload: None })
    } else if button == 1 {
        Some(InputMessageView { event: codes.middle_up, payload: None })
    } else if button == 2 {
        Some(InputMessageView { event: codes.right_up, payload: None })
    } else if button == 3 {
        Some(InputMessageView { event: codes.x_up, payload: numbers(1, 0, 0) })
    } else if button == 4 {
        Some(InputMessageView { event: codes.x_up, payload: numbers(2, 0, 0) })
    } else {
        None
    }
}

/// The message for a key that went down or came up: the code of the key,
/// and 0 for down or 1 for up as the third number.
pub open spec fn key_message(code: u8, down: bool) -> InputMessageView {
    InputMessageView { event: code, payload: numbers(0, 0, if down { 0 } else { 1 }) }
}

/// The message that carries the clipboard's text to the host, sent when a
/// key goes down with the control key held, or when the key is `v`, and the
/// clipboard holds text.
pub open spec fn paste_message(code: u8, control: bool, key: Seq<char>, text: Seq<char>) -> Option<
    InputMessageView,
> {
    if (control || key == "v"@) && text.len() > 0 {
        Some(
            InputMessageView {
                event: code,
                payload: Some(PayloadView { p1: 0, p2: 0, p3: 0, p4: Some(text) }),
            },
        )
    } else {
        None
    }
}

fn plain(p1: i32, p2: i32, p3: i32) -> (payload: Option<Payload>)
    ensures
        (match payload {
            Some(p) => Some(p@),
            None => None,
        }) == numbers(p1, p2, p3),
{
    Some(Payload { p1, p2, p3, p4: None })
}

impl InputMessage {
    /// The message for a pointer that moved.
    pub fn pointer_moved(codes: &PointerCodes, x_ratio: i32, y_ratio: i32) -> (m: InputMessage)
        ensures
            m@ == moved_to(*codes, x_ratio, y_ratio),
    {
        InputMessage { event: codes.moved, payload: plain(x_ratio, y_ratio, 0) }
    }

    /// The message for a button that went down, if `button` is a button.
    pub fn button_pressed(codes: &PointerCodes, button: i16) -> (m: Option<InputMessage>)
        ensures
            input_view(m) == pressed(*codes, button),
    {
        match button {
            0 => Some(InputMessage { event: codes.left_down, payload: None }),
            1 => Some(InputMessage { event: codes.middle_down, payload: None }),
            2 => Some(InputMessage { event: codes.right_down, payload: None }),
            3 => Some(InputMessage { event: codes.x_down, payload: plain(1, 0, 0) }),
            4 => Some(InputMessage { event: codes.x_down, payload: plain(2, 0, 0) }),
            _ => None,
        }
    }

    /// The message for a button that came up, if `button` is a button.
    pub fn button_released(codes: &PointerCodes, button: i16) -> (m: Option<InputMessage>)
        ensures
            input_view(m) == released(*codes, button),
    {
        match button {
            0 => Some(InputMessage { event: codes.left_up, payload: None }),
            1 => Some(InputMessage { event: codes.middle_up, payload: None }),
            2 => Some(InputMessage { event: codes.right_up, payload: None }),
            3 => Some(InputMessage { event: codes.x_up, payload: plain(1, 0, 0) }),
            4 => Some(InputMessage { event: codes.x_up, payload: plain(2, 0, 0) }),
            _ => None,
        }
    }

    /// The message for a wheel that turned by the given amounts along the
    /// three axes.
    pub fn wheel_turned(codes: &PointerCodes, dx: i32, dy: i32, dz: i32) -> (m: InputMessage)
        ensures
            m@ == (InputMessageView { event: codes.wheel, payload: numbers(dx, dy, dz) }),
    {
        InputMessage { event: codes.wheel, payload: plain(dx, dy, dz) }
    }

    /// The message for a key that went down (`down`) or came up.
    pub fn key_changed(code: u8, down: bool) -> (m: InputMessage)
        ensures
            m@ == key_message(code, down),
    {
        let p3: i32 = if down { 0 } else { 1 };
        InputMessage { event: code, payload: plain(0, 0, p3) }
    }

    /// The message that carries the clipboard's text to the host when the
    /// key `key` goes down, if one is due. `code` is the code of the paste
    /// event.
    pub fn text_pasted(code: u8, control: bool, key: &String, text: &str) -> (m: Option<
        InputMessage,
    >)
        ensures
            input_view(m) == paste_message(code, control, key@, text@),
    {
        if (control || is_word(key, "v")) && !text.is_empty() {
            Some(
                InputMessage {
                    event: code,
                    payload: Some(Payload { p1: 0, p2: 0, p3: 0, p4: Some(text.to_owned()) }),
                },
            )
        } else {
            None
        }
    }
}

/// A data channel that carries input.
#[derive(Clone, Copy, Debug, PartialEq, Eq, Structural)]
pub enum Channel {
    Key,
    Mouse,
    Common,
}

/// The channel with the given label, if the label is one of the three.
pub open spec fn channel_of(label: Seq<char>) -> Option<Channel> {
    if label == "key"@ {
        Some(Channel::Key)
    } else if label == "mouse"@ {
        Some(Channel::Mouse)
    } else if label == "common"@ {
        Some(Channel::Common)
    } else {
        None
    }
}

/// What a viewer says on a channel that has just opened: a greeting on the
/// common channel, nothing on the others.
pub open spec fn greeting_on(channel: Channel) -> Option<Seq<char>> {
    if channel == Channel::Common {
        Some("Hello from lindows-client!"@)
    } else {
        None
    }
}

/// What a viewer says on a channel that has just opened.
pub fn greeting(channel: Channel) -> (text: Option<&'static str>)
    ensures
        match text {
            Some(t) => greeting_on(channel) == Some(t@),
            None => greeting_on(channel) is None,
        },
{
    match channel {
        Channel::Common => Some("Hello from lindows-client!"),
        _ => None,
    }
}

/// What the host makes of an input message.
#[derive(Clone, Debug, PartialEq, Eq)]
pub enum InputEvent {
    /// A key went down (`down`) or came up.
    Keyboard { code: u8, down: bool },
    /// Something happened to the pointer; what the three numbers mean
    /// depends on the code.
    Pointer { code: u8, p1: i32, p2: i32, p3: i32 },
    /// Something to be done with the clipboard, or another control event.
    Control { code: u8, text: Option<String> },
}

/// The mathematical value of an [`InputEvent`].
pub enum InputEventView {
    Keyboard { code: u8, down: bool },
    Pointer { code: u8, p1: i32, p2: i32, p3: i32 },
    Control { code: u8, text: Option<Seq<char>> },
}

impl View for InputEvent {
    type V = InputEventView;

    open spec fn view(&self) -> InputEventView {
        match self {
            InputEvent::Keyboard { code, down } => InputEventView::Keyboard {
                code: *code,
                down: *down,
            },
            InputEvent::Pointer { code, p1, p2, p3 } => InputEventView::Pointer {
                code: *code,
                p1: *p1,
                p2: *p2,
                p3: *p3,
            },
            InputEvent::Control { code, text } => InputEventView::Control {
                code: *code,
                text: match text {
                    Some(t) => Some(t@),
                    None => None,
                },
            },
        }
    }
}

/// The view of an optional event.
pub open spec fn event_view(e: Option<InputEvent>) -> Option<InputEventView> {
    match e {
        Some(e) => Some(e@),
        None => None,
    }
}

/// The payload of a message; a message without one counts as one with
/// zeros and no text.
pub open spec fn payload_of(m: InputMessageView) -> PayloadView {
    match m.payload {
        Some(p) => p,
        None => PayloadView { p1: 0, p2: 0, p3: 0, p4: None },
    }
}

/// What the host makes of what arrived on a channel. Nothing, if what
/// arrived was no message, if the code of the message is 0x80 or more, or if
/// a message on the key channel says neither down (0) nor up (1).
pub open spec fn routed(channel: Channel, message: Option<InputMessageView>) -> Option<
    InputEventView,
> {
    match message {
        None => None,
        Some(m) => if m.event >= 0x80 {
            None
        } else {
            let p = payload_of(m);
            match channel {
                Channel::Key => if p.p3 == 0 {
                    Some(InputEventView::Keyboard { code: m.event, down: true })
                } else if p.p3 == 1 {
                    Some(InputEventView::Keyboard { code: m.event, down: false })
                } else {
                    None
                },
                Channel::Mouse => Some(
                    InputEventView::Pointer { code: m.event, p1: p.p1, p2: p.p2, p3: p.p3 },
                ),
                Channel::Common => Some(InputEventView::Control { code: m.event, text: p.p4 }),
            }
        },
    }
}

/// What the host makes of what arrived on the channel with the given label:
/// nothing, if the label is none of the three.
pub open spec fn dispatched(label: Seq<char>, message: Option<InputMessageView>) -> Option<
    InputEventView,
> {
    match channel_of(label) {
        Some(channel) => routed(channel, message),
        None => None,
    }
}

/// The channel with the given label.
pub fn channel_for(label: &str) -> (channel: Option<Channel>)
    ensures
        channel == channel_of(label@),
{
    let label = label.to_owned();
    if is_word(&label, "key") {
        Some(Channel::Key)
    } else if is_word(&label, "mouse") {
        Some(Channel::Mouse)
    } else if is_word(&label, "common") {
        Some(Channel::Common)
    } else {
        None
    }
}

/// Makes an event of what arrived on a channel: `message` is the message
/// that the bytes held, or `None` if they held none.
pub fn route(channel: Channel, message: Option<InputMessage>) -> (event: Option<InputEvent>)
    ensures
        event_view(event) == routed(channel, input_view(message)),
{
    match message {
        None => None,
        Some(m) => {
            if m.event >= 0x80 {
                return None;
            }
            let code = m.event;
            let payload = match m.payload {
                Some(p) => p,
                None => Payload { p1: 0, p2: 0, p3: 0, p4: None },
            };
            match channel {
                Channel::Key => {
                    if payload.p3 == 0 {
                        Some(InputEvent::Keyboard { code, down: true })
                    } else if payload.p3 == 1 {
                        Some(InputEvent::Keyboard { code, down: false })
                    } else {
                        None
                    }
                },
                Channel::Mouse => Some(
                    InputEvent::Pointer { code, p1: payload.p1, p2: payload.p2, p3: payload.p3 },
                ),
                Channel::Common => Some(InputEvent::Control { code, text: payload.p4 }),
            }
        },
    }
}

/// Makes an event of what arrived on the data channel with the given label.
pub fn dispatch(label: &str, message: Option<InputMessage>) -> (event: Option<InputEvent>)
    ensures
        event_view(event) == dispatched(label@, input_view(message)),
{
    match channel_for(label) {
        Some(channel) => route(channel, message),
        None => None,
    }
}

} // verus!
