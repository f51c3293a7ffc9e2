//! Event dispatcher: the transition table from incoming messages to LED
//! writes and reactions, and the bulk LED write sequences.
//!
//! Every function here computes the exact messages to write; whoever owns the
//! output connection sends them in order.

use vstd::prelude::*;
use crate::codec::{
    action_of, decode, encode, encode_spec, decode_spec, PadAction, PadColor, RawMidiMessage,
};
use crate::registry::{
    get_grouping_pads, get_sampler_pads, lists_zone, enumerate, pad_range, zone_of, zone_spec,
    PadZone, GROUPING_END, GROUPING_FIRST, SAMPLER_END, SAMPLER_FIRST,
};

verus! {

/// Number of pads, counted from pad 0, that the whole-surface sequences
/// light.
pub const SURFACE_PADS: u8 = 99;

/// What to do in answer to one incoming message.
#[derive(Clone, Copy, Debug, PartialEq, Eq, Structural)]
pub struct MidiResponse {
    /// The LED write to perform, if any.
    pub write: Option<RawMidiMessage>,
    /// Whether to start the asynchronous reaction for the pad.
    pub spawn_reaction: bool,
}

/// The transition table: a press of a sampler pad turns it red and starts a
/// reaction, a release turns it blinking yellow, and everything else does
/// nothing.
pub open spec fn response_spec(raw: RawMidiMessage) -> MidiResponse {
    let (action, pad, _value) = decode_spec(raw);
    if zone_spec(pad) == PadZone::Sampler && action == PadAction::Pressed {
        MidiResponse { write: Some(encode_spec(pad, PadColor::Red)), spawn_reaction: true }
    } else if zone_spec(pad) == PadZone::Sampler && action == PadAction::Released {
        MidiResponse { write: Some(encode_spec(pad, PadColor::YellowBlink)), spawn_reaction: false }
    } else {
        MidiResponse { write: None, spawn_reaction: false }
    }
}

/// Only a press or a release of a sampler pad writes, and only to that pad;
/// only a press starts a reaction; a slider movement or an unknown status
/// byte does nothing.
pub proof fn lemma_only_sampler_events_act(raw: RawMidiMessage)
    ensures
        response_spec(raw).write.is_some() <==> (zone_spec(raw.data1) == PadZone::Sampler && (
        action_of(raw.status) == PadAction::Pressed || action_of(raw.status)
            == PadAction::Released)),
        response_spec(raw).write.is_some() ==> response_spec(raw).write.unwrap().data1
            == raw.data1,
        response_spec(raw).spawn_reaction <==> (zone_spec(raw.data1) == PadZone::Sampler
            && action_of(raw.status) == PadAction::Pressed),
        action_of(raw.status) == PadAction::Unknown || action_of(raw.status)
            == PadAction::SliderMoved ==> response_spec(raw) == (MidiResponse {
            write: None,
            spawn_reaction: false,
        }),
{
}

/// The response to one decoded message.
pub fn respond(raw: &RawMidiMessage) -> (r: MidiResponse)
    ensures
        r == response_spec(*raw),
{
    let (action, pad, _value) = decode(raw);
    if zone_of(pad) == PadZone::Sampler {
        match action {
            PadAction::Pressed => {
                return MidiResponse { write: Some(encode(pad, PadColor::Red)), spawn_reaction: true };
            },
            PadAction::Released => {
                return MidiResponse {
                    write: Some(encode(pad, PadColor::YellowBlink)),
                    spawn_reaction: false,
                };
            },
            _ => {},
        }
    }
    MidiResponse { write: None, spawn_reaction: false }
}

/// The response to the raw bytes of an incoming message. Bytes past the third
/// are ignored; a message of fewer than three bytes does nothing.
pub fn incomming_midi_action(message: &[u8]) -> (r: MidiResponse)
    ensures
        message@.len() < 3 ==> r == (MidiResponse { write: None, spawn_reaction: false }),
        message@.len() >= 3 ==> r == response_spec(
            RawMidiMessage { status: message@[0], data1: message@[1], data2: message@[2] },
        ),
{
    match RawMidiMessage::from_slice(message) {
        Some(raw) => respond(&raw),
        None => MidiResponse { write: None, spawn_reaction: false },
    }
}

/// Whether a pad has a sampling group assigned. Assignments are not
/// persisted, so every pad counts as having its group.
pub open spec fn has_sampling_group(pad: u8) -> bool {
    true
}

/// Whether `pad_id` has a sampling group assigned.
pub fn pad_sample_has_sampling_group(pad_id: &u8) -> (r: bool)
    ensures
        r == has_sampling_group(*pad_id),
{
    true
}

/// The color a grouping pad shows at startup.
pub open spec fn grouping_color(pad: u8) -> PadColor {
    if has_sampling_group(pad) {
        PadColor::GreenBlink
    } else {
        PadColor::Off
    }
}

/// The startup sequence: every sampler pad blinking yellow, then every
/// grouping pad blinking green when it has a sampling group and off when not.
pub open spec fn startup_spec() -> Seq<RawMidiMessage> {
    pad_range(SAMPLER_FIRST, SAMPLER_END).map_values(
        |p: u8| encode_spec(p, PadColor::YellowBlink),
    ) + pad_range(GROUPING_FIRST, GROUPING_END).map_values(
        |p: u8| encode_spec(p, grouping_color(p)),
    )
}

/// The LED writes that set up the surface after the endpoints are bound.
pub fn startup_writes() -> (r: Vec<RawMidiMessage>)
    ensures
        r@ == startup_spec(),
{
    let sampler = get_sampler_pads();
    let grouping = get_grouping_pads();
    let mut writes: Vec<RawMidiMessage> = Vec::new();
    let mut i: usize = 0;
    while i < sampler.len()
        invariant
            sampler@ == pad_range(SAMPLER_FIRST, SAMPLER_END),
            i <= sampler@.len(),
            writes@ == sampler@.subrange(0, i as int).map_values(
                |p: u8| encode_spec(p, PadColor::YellowBlink),
            ),
        decreases sampler@.len() - i,
    {
        writes.push(encode(sampler[i], PadColor::YellowBlink));
        i = i + 1;
        assert(writes@ =~= sampler@.subrange(0, i as int).map_values(
            |p: u8| encode_spec(p, PadColor::YellowBlink),
        ));
    }
    assert(sampler@.subrange(0, i as int) =~= sampler@);
    let ghost head = writes@;
    let mut j: usize = 0;
    while j < grouping.len()
        invariant
            grouping@ == pad_range(GROUPING_FIRST, GROUPING_END),
            j <= grouping@.len(),
            writes@ == head + grouping@.subrange(0, j as int).map_values(
                |p: u8| encode_spec(p, grouping_color(p)),
            ),
        decreases grouping@.len() - j,
    {
        let pad = grouping[j];
        let color = if pad_sample_has_sampling_group(&pad) {
            PadColor::GreenBlink
        } else {
            PadColor::Off
        };
        writes.push(encode(pad, color));
        j = j + 1;
        assert(writes@ =~= head + grouping@.subrange(0, j as int).map_values(
            |p: u8| encode_spec(p, grouping_color(p)),
        ));
    }
    assert(grouping@.subrange(0, j as int) =~= grouping@);
    writes
}

/// The writes that light pads `0, 1, ..., count - 1` in `color`.
pub open spec fn fill_spec(count: u8, color: PadColor) -> Seq<RawMidiMessage> {
    Seq::new(count as nat, |i: int| encode_spec(i as u8, color))
}

/// The writes that light pads `0, 1, ..., count - 1` in `color`, in order.
pub fn fill_writes(count: u8, color: PadColor) -> (r: Vec<RawMidiMessage>)
    ensures
        r@ == fill_spec(count, color),
{
    let mut writes: Vec<RawMidiMessage> = Vec::new();
    let mut x: u8 = 0;
    while x < count
        invariant
            x <= count,
            writes@ == fill_spec(x, color),
        decreases count - x,
    {
        writes.push(encode(x, color));
        x = x + 1;
        assert(writes@ =~= fill_spec(x, color));
    }
    writes
}

/// The writes that turn the whole surface off.
pub fn pads_turn_all_off() -> (r: Vec<RawMidiMessage>)
    ensures
        r@ == fill_spec(SURFACE_PADS, PadColor::Off),
{
    fill_writes(SURFACE_PADS, PadColor::Off)
}

/// The color of step `step` of the light show: yellow, green, red, again and
/// again.
pub open spec fn disco_color_spec(step: u64) -> PadColor {
    if step % 3 == 0 {
        PadColor::Yellow
    } else if step % 3 == 1 {
        PadColor::Green
    } else {
        PadColor::Red
    }
}

/// The writes of step `step` of the light show: the whole surface in that
/// step's color. The show runs until its owner stops asking for steps.
pub fn disco(step: u64) -> (r: Vec<RawMidiMessage>)
    ensures
        r@ == fill_spec(SURFACE_PADS, disco_color_spec(step)),
{
    let color = if step % 3 == 0 {
        PadColor::Yellow
    } else if step % 3 == 1 {
        PadColor::Green
    } else {
        PadColor::Red
    };
    fill_writes(SURFACE_PADS, color)
}

/// The writes that turn every pad of `zone` off, in ascending pad order.
pub fn clear_zone(zone: PadZone) -> (r: Vec<RawMidiMessage>)
    ensures
        lists_zone(r@.map_values(|m: RawMidiMessage| m.data1), zone),
        forall|i: int| 0 <= i < r@.len() ==> r@[i] == encode_spec(r@[i].data1, PadColor::Off),
{
    let pads = enumerate(zone);
    let mut writes: Vec<RawMidiMessage> = Vec::new();
    let mut i: usize = 0;
    while i < pads.len()
        invariant
            i <= pads@.len(),
            writes@ == pads@.subrange(0, i as int).map_values(
                |p: u8| encode_spec(p, PadColor::Off),
            ),
        decreases pads@.len() - i,
    {
        writes.push(encode(pads[i], PadColor::Off));
        i = i + 1;
        assert(writes@ =~= pads@.subrange(0, i as int).map_values(
            |p: u8| encode_spec(p, PadColor::Off),
        ));
    }
    assert(pads@.subrange(0, i as int) =~= pads@);
    assert(writes@.map_values(|m: RawMidiMessage| m.data1) =~= pads@);
    writes
}

} // verus!
