//! Pad registry: the fixed classification of pad identifiers into zones.

use vstd::prelude::*;

verus! {

/// First sampler pad.
pub const SAMPLER_FIRST: u8 = 32;

/// One past the last sampler pad.
pub const SAMPLER_END: u8 = 48;

/// First grouping pad.
pub const GROUPING_FIRST: u8 = 84;

/// One past the last grouping pad.
pub const GROUPING_END: u8 = 90;

/// Functional zone of a pad.
#[derive(Clone, Copy, Debug, PartialEq, Eq, Structural)]
pub enum PadZone {
    Sampler,
    Grouping,
    Unclassified,
}

/// The zone that `pad` belongs to.
pub open spec fn zone_spec(pad: u8) -> PadZone {
    if SAMPLER_FIRST <= pad && pad < SAMPLER_END {
        PadZone::Sampler
    } else if GROUPING_FIRST <= pad && pad < GROUPING_END {
        PadZone::Grouping
    } else {
        PadZone::Unclassified
    }
}

/// The pads `first, first + 1, ..., end - 1`.
pub open spec fn pad_range(first: u8, end: u8) -> Seq<u8> {
    Seq::new((end - first) as nat, |i: int| (first + i) as u8)
}

/// `pads` is strictly ascending and holds exactly the pads of `zone`.
pub open spec fn lists_zone(pads: Seq<u8>, zone: PadZone) -> bool {
    &&& forall|i: int, j: int| 0 <= i < j < pads.len() ==> pads[i] < pads[j]
    &&& forall|p: u8| #[trigger] pads.contains(p) <==> zone_spec(p) == zone
}

/// The zone that `pad` belongs to.
pub fn zone_of(pad: u8) -> (r: PadZone)
    ensures
        r == zone_spec(pad),
{
    if SAMPLER_FIRST <= pad && pad < SAMPLER_END {
        PadZone::Sampler
    } else if GROUPING_FIRST <= pad && pad < GROUPING_END {
        PadZone::Grouping
    } else {
        PadZone::Unclassified
    }
}

/// The sampler pads in ascending order.
pub fn get_sampler_pads() -> (r: Vec<u8>)
    ensures
        r@ == pad_range(SAMPLER_FIRST, SAMPLER_END),
{
    let mut pads: Vec<u8> = Vec::new();
    let mut x: u8 = SAMPLER_FIRST;
    while x < SAMPLER_END
        invariant
            SAMPLER_FIRST <= x <= SAMPLER_END,
            pads@ == pad_range(SAMPLER_FIRST, x),
        decreases SAMPLER_END - x,
    {
        pads.push(x);
        x = x + 1;
        assert(pads@ =~= pad_range(SAMPLER_FIRST, x));
    }
    pads
}

/// The grouping pads in ascending order.
pub fn get_grouping_pads() -> (r: Vec<u8>)
    ensures
        r@ == pad_range(GROUPING_FIRST, GROUPING_END),
{
    let mut pads: Vec<u8> = Vec::new();
    let mut x: u8 = GROUPING_FIRST;
    while x < GROUPING_END
        invariant
            GROUPING_FIRST <= x <= GROUPING_END,
            pads@ == pad_range(GROUPING_FIRST, x),
        decreases GROUPING_END - x,
    {
        pads.push(x);
        x = x + 1;
        assert(pads@ =~= pad_range(GROUPING_FIRST, x));
    }
    pads
}

/// A contiguous range of pads, listed in order, is exactly the pads whose
/// zone is the range's zone.
proof fn lemma_range_lists_zone(first: u8, end: u8, zone: PadZone)
    requires
        first <= end,
        forall|p: u8| (first <= p < end) <==> zone_spec(p) == zone,
    ensures
        lists_zone(pad_range(first, end), zone),
{
    let s = pad_range(first, end);
    assert forall|p: u8| s.contains(p) <==> zone_spec(p) == zone by {
        if first <= p < end {
            assert(s[p - first] == p);
        }
    }
}

/// All pads of `zone` in ascending order.
pub fn enumerate(zone: PadZone) -> (r: Vec<u8>)
    ensures
        lists_zone(r@, zone),
{
    match zone {
        PadZone::Sampler => {
            proof {
                lemma_range_lists_zone(SAMPLER_FIRST, SAMPLER_END, zone);
            }
            get_sampler_pads()
        },
        PadZone::Grouping => {
            proof {
                lemma_range_lists_zone(GROUPING_FIRST, GROUPING_END, zone);
            }
            get_grouping_pads()
        },
        PadZone::Unclassified => {
            let mut pads: Vec<u8> = Vec::new();
            let mut x: u16 = 0;
            while x < 256
                invariant
                    x <= 256,
                    forall|i: int, j: int| 0 <= i < j < pads@.len() ==> pads@[i] < pads@[j],
                    forall|i: int| 0 <= i < pads@.len() ==> pads@[i] < x,
                    forall|p: u8|
                        pads@.contains(p) <==> (p < x && zone_spec(p) == PadZone::Unclassified),
                decreases 256 - x,
            {
                let p: u8 = x as u8;
                let ghost before = pads@;
                if zone_of(p) == PadZone::Unclassified {
                    pads.push(p);
                    assert(pads@ == before.push(p));
                    assert(pads@.last() == p);
                }
                x = x + 1;
                assert forall|q: u8|
                    pads@.contains(q) <==> (q < x && zone_spec(q) == PadZone::Unclassified) by {
                    if before.contains(q) {
                        let k = choose|k: int| 0 <= k < before.len() && before[k] == q;
                        assert(pads@[k] == q);
                    }
                }
            }
            pads
        },
    }
}

/// Every pad lies in exactly one zone, given by the fixed ranges: sampler
/// pads `32..48`, grouping pads `84..90`, all others unclassified.
pub proof fn lemma_zone_total(pad: u8)
    ensures
        zone_spec(pad) == PadZone::Sampler <==> 32 <= pad < 48,
        zone_spec(pad) == PadZone::Grouping <==> 84 <= pad < 90,
        zone_spec(pad) == PadZone::Unclassified <==> !(32 <= pad < 48 || 84 <= pad < 90),
        zone_spec(32) == PadZone::Sampler,
        zone_spec(47) == PadZone::Sampler,
        zone_spec(48) == PadZone::Unclassified,
        zone_spec(84) == PadZone::Grouping,
        zone_spec(89) == PadZone::Grouping,
        zone_spec(90) == PadZone::Unclassified,
{
}

} // verus!
