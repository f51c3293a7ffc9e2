use midi_sampler::codec::{decode, encode, PadAction, PadColor, RawMidiMessage, NOTE_ON};

const ALL_COLORS: [PadColor; 7] = [
    PadColor::Off,
    PadColor::Green,
    PadColor::GreenBlink,
    PadColor::Red,
    PadColor::RedBlink,
    PadColor::Yellow,
    PadColor::YellowBlink,
];

#[test]
fn color_codes_are_the_table() {
    let codes: Vec<u8> = ALL_COLORS.iter().map(|c| c.color_code()).collect();
    assert_eq!(codes, vec![0, 1, 2, 3, 4, 5, 6]);
}

#[test]
fn from_code_inverts_color_code() {
    for c in ALL_COLORS {
        assert_eq!(PadColor::from_code(c.color_code()), Some(c));
    }
    assert_eq!(PadColor::from_code(7), None);
    assert_eq!(PadColor::from_code(255), None);
}

#[test]
fn encode_then_decode_round_trips_every_pad_and_color() {
    for pad in 0..=255u8 {
        for c in ALL_COLORS {
            let m = encode(pad, c);
            assert_eq!(m.to_bytes(), [0x90, pad, c.color_code()]);
            let (action, p, v) = decode(&m);
            assert_eq!(action, PadAction::Pressed);
            assert_eq!(p, pad);
            assert_eq!(PadColor::from_code(v), Some(c));
        }
    }
}

#[test]
fn encode_red_on_pad_40() {
    assert_eq!(
        encode(40, PadColor::Red),
        RawMidiMessage { status: NOTE_ON, data1: 40, data2: 3 }
    );
}

#[test]
fn known_status_bytes_decode() {
    assert_eq!(PadAction::from(0x90), PadAction::Pressed);
    assert_eq!(PadAction::from(0x80), PadAction::Released);
    assert_eq!(PadAction::from(0xB0), PadAction::SliderMoved);
}

#[test]
fn other_status_bytes_decode_to_unknown() {
    for status in 0..=255u8 {
        if status == 0x80 || status == 0x90 || status == 0xB0 {
            continue;
        }
        let raw = RawMidiMessage { status, data1: 40, data2: 64 };
        assert_eq!(decode(&raw), (PadAction::Unknown, 40, 64));
    }
}

#[test]
fn from_slice_needs_three_bytes() {
    assert_eq!(RawMidiMessage::from_slice(&[0x90, 40]), None);
    assert_eq!(RawMidiMessage::from_slice(&[]), None);
    assert_eq!(
        RawMidiMessage::from_slice(&[0x80, 33, 0, 9]),
        Some(RawMidiMessage { status: 0x80, data1: 33, data2: 0 })
    );
}
