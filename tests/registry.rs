use midi_sampler::registry::{enumerate, get_grouping_pads, get_sampler_pads, zone_of, PadZone};

#[test]
fn zone_boundaries() {
    assert_eq!(zone_of(31), PadZone::Unclassified);
    assert_eq!(zone_of(32), PadZone::Sampler);
    assert_eq!(zone_of(47), PadZone::Sampler);
    assert_eq!(zone_of(48), PadZone::Unclassified);
    assert_eq!(zone_of(83), PadZone::Unclassified);
    assert_eq!(zone_of(84), PadZone::Grouping);
    assert_eq!(zone_of(89), PadZone::Grouping);
    assert_eq!(zone_of(90), PadZone::Unclassified);
    assert_eq!(zone_of(0), PadZone::Unclassified);
    assert_eq!(zone_of(255), PadZone::Unclassified);
}

#[test]
fn sampler_and_grouping_pads() {
    assert_eq!(get_sampler_pads(), (32..48).collect::<Vec<u8>>());
    assert_eq!(get_grouping_pads(), vec![84, 85, 86, 87, 88, 89]);
}

#[test]
fn enumerate_partitions_every_pad() {
    let mut all: Vec<u8> = Vec::new();
    for zone in [PadZone::Sampler, PadZone::Grouping, PadZone::Unclassified] {
        let pads = enumerate(zone);
        assert!(pads.windows(2).all(|w| w[0] < w[1]));
        assert!(pads.iter().all(|p| zone_of(*p) == zone));
        all.extend(pads);
    }
    all.sort();
    assert_eq!(all, (0..=255u8).collect::<Vec<u8>>());
    assert_eq!(enumerate(PadZone::Unclassified).len(), 256 - 16 - 6);
}
