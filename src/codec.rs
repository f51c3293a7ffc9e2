//! Wire codec: total, pure maps between raw 3-byte MIDI messages and the pad
//! domain model.

use vstd::prelude::*;

verus! {

/// Status byte of a Note-On message: a pad press, and every LED write.
pub const NOTE_ON: u8 = 0x90;

/// Status byte of a Note-Off message: a pad release.
pub const NOTE_OFF: u8 = 0x80;

/// Status byte of a Control-Change message: a slider movement.
pub const CONTROL_CHANGE: u8 = 0xB0;

/// LED state of a pad, carried as the third byte of an outbound Note-On.
#[derive(Clone, Copy, Debug, PartialEq, Eq, Structural)]
pub enum PadColor {
    Off,
    Green,
    GreenBlink,
    Red,
    RedBlink,
    Yellow,
    YellowBlink,
}

impl PadColor {
    /// The wire code of each color.
    pub open spec fn code(self) -> u8 {
        match self {
            PadColor::Off => 0,
            PadColor::Green => 1,
            PadColor::GreenBlink => 2,
            PadColor::Red => 3,
            PadColor::RedBlink => 4,
            PadColor::Yellow => 5,
            PadColor::YellowBlink => 6,
        }
    }

    /// The wire code of this color.
    pub fn color_code(self) -> (r: u8)
        ensures
            r == self.code(),
    {
        match self {
            PadColor::Off => 0,
            PadColor::Green => 1,
            PadColor::GreenBlink => 2,
            PadColor::Red => 3,
            PadColor::RedBlink => 4,
            PadColor::Yellow => 5,
            PadColor::YellowBlink => 6,
        }
    }

    /// The color whose wire code is `code`, if there is one.
    pub fn from_code(code: u8) -> (r: Option<PadColor>)
        ensures
            forall|c: PadColor| r == Some(c) <==> c.code() == code,
            r.is_some() <==> code <= 6,
    {
        match code {
            0 => Some(PadColor::Off),
            1 => Some(PadColor::Green),
            2 => Some(PadColor::GreenBlink),
            3 => Some(PadColor::Red),
            4 => Some(PadColor::RedBlink),
            5 => Some(PadColor::Yellow),
            6 => Some(PadColor::YellowBlink),
            _ => None,
        }
    }
}

/// What a pad did, as told by the status byte of an incoming message.
#[derive(Clone, Copy, Debug, PartialEq, Eq, Structural)]
pub enum PadAction {
    Pressed,
    Released,
    SliderMoved,
    /// Any other status byte: a valid decode that triggers nothing.
    Unknown,
}

/// The action that a status byte stands for.
pub open spec fn action_of(status: u8) -> PadAction {
    if status == NOTE_ON {
        PadAction::Pressed
    } else if status == NOTE_OFF {
        PadAction::Released
    } else if status == CONTROL_CHANGE {
        PadAction::SliderMoved
    } else {
        PadAction::Unknown
    }
}

impl From<u8> for PadAction {
    fn from(status: u8) -> (r: PadAction)
        ensures
            r == action_of(status),
    {
        if status == NOTE_ON {
            PadAction::Pressed
        } else if status == NOTE_OFF {
            PadAction::Released
        } else if status == CONTROL_CHANGE {
            PadAction::SliderMoved
        } else {
            PadAction::Unknown
        }
    }
}

impl vstd::std_specs::convert::FromSpecImpl<u8> for PadAction {
    open spec fn obeys_from_spec() -> bool {
        true
    }

    open spec fn from_spec(status: u8) -> PadAction {
        action_of(status)
    }
}

/// An incoming or outgoing 3-byte channel message.
#[derive(Clone, Copy, Debug, PartialEq, Eq, Structural)]
pub struct RawMidiMessage {
    pub status: u8,
    pub data1: u8,
    pub data2: u8,
}

/// What an incoming message says: the action, the pad, and the value byte.
pub open spec fn decode_spec(raw: RawMidiMessage) -> (PadAction, u8, u8) {
    (action_of(raw.status), raw.data1, raw.data2)
}

/// The Note-On message that lights `pad` in `color`.
pub open spec fn encode_spec(pad: u8, color: PadColor) -> RawMidiMessage {
    RawMidiMessage { status: NOTE_ON, data1: pad, data2: color.code() }
}

impl RawMidiMessage {
    /// The message in the first three bytes of `bytes`; `None` when there are
    /// fewer than three.
    pub fn from_slice(bytes: &[u8]) -> (r: Option<RawMidiMessage>)
        ensures
            bytes@.len() < 3 ==> r.is_none(),
            bytes@.len() >= 3 ==> r == Some(
                (RawMidiMessage { status: bytes@[0], data1: bytes@[1], data2: bytes@[2] }),
            ),
    {
        if bytes.len() < 3 {
            None
        } else {
            Some(RawMidiMessage { status: bytes[0], data1: bytes[1], data2: bytes[2] })
        }
    }

    /// The message's bytes in wire order.
    pub fn to_bytes(&self) -> (r: [u8; 3])
        ensures
            r@ == seq![self.status, self.data1, self.data2],
    {
        let r: [u8; 3] = [self.status, self.data1, self.data2];
        assert(r@ =~= seq![self.status, self.data1, self.data2]);
        r
    }
}

/// Splits an incoming message into its action, pad and value byte.
pub fn decode(raw: &RawMidiMessage) -> (r: (PadAction, u8, u8))
    ensures
        r == decode_spec(*raw),
{
    (PadAction::from(raw.status), raw.data1, raw.data2)
}

/// The Note-On message that lights `pad` in `color`.
pub fn encode(pad: u8, color: PadColor) -> (r: RawMidiMessage)
    ensures
        r == encode_spec(pad, color),
{
    RawMidiMessage { status: NOTE_ON, data1: pad, data2: color.color_code() }
}

/// Encoding a pad color and decoding the message gives back a press of the
/// same pad whose value byte is the color's code, and that code names the
/// color again.
pub proof fn lemma_encode_decode_round_trip(pad: u8, color: PadColor)
    ensures
        decode_spec(encode_spec(pad, color)) == (PadAction::Pressed, pad, color.code()),
        encode_spec(pad, color).data1 == pad,
        encode_spec(pad, color).data2 == color.code(),
        forall|c: PadColor| c.code() == color.code() ==> c == color,
{
}

/// Every status byte other than Note-On, Note-Off and Control-Change decodes
/// to `Unknown`.
pub proof fn lemma_other_status_is_unknown(raw: RawMidiMessage)
    requires
        raw.status != NOTE_ON,
        raw.status != NOTE_OFF,
        raw.status != CONTROL_CHANGE,
    ensures
        decode_spec(raw).0 == PadAction::Unknown,
{
}

} // verus!
