use geo_handshake::report::{Binary64, Draft, LocationData};

fn number(value: f64) -> Binary64 {
    Binary64 { bits: value.to_bits() }
}

fn seoul() -> LocationData {
    LocationData {
        latitude: number(37.5665),
        longitude: number(126.9780),
        accuracy: number(12.5),
        timestamp: 1_700_000_000_000,
    }
}

fn draft_of(report: LocationData) -> Draft {
    Draft {
        latitude: Some(report.latitude),
        longitude: Some(report.longitude),
        accuracy: Some(report.accuracy),
        timestamp: Some(report.timestamp),
    }
}

#[test]
fn empty_draft_has_no_field() {
    let draft = Draft::empty();
    assert_eq!(draft.latitude, None);
    assert_eq!(draft.longitude, None);
    assert_eq!(draft.accuracy, None);
    assert_eq!(draft.timestamp, None);
    assert_eq!(draft.complete(), None);
}

#[test]
fn whole_draft_gives_the_report_field_for_field() {
    let report = seoul();
    assert_eq!(draft_of(report).complete(), Some(report));
}

#[test]
fn draft_without_latitude_gives_no_report() {
    let mut draft = draft_of(seoul());
    draft.latitude = None;
    assert_eq!(draft.complete(), None);
}

#[test]
fn draft_without_longitude_gives_no_report() {
    let mut draft = draft_of(seoul());
    draft.longitude = None;
    assert_eq!(draft.complete(), None);
}

#[test]
fn draft_without_accuracy_gives_no_report() {
    let mut draft = draft_of(seoul());
    draft.accuracy = None;
    assert_eq!(draft.complete(), None);
}

#[test]
fn draft_without_timestamp_gives_no_report() {
    let mut draft = draft_of(seoul());
    draft.timestamp = None;
    assert_eq!(draft.complete(), None);
}

#[test]
fn draft_with_latitude_alone_gives_no_report() {
    let draft = Draft { latitude: Some(number(37.5665)), ..Draft::empty() };
    assert_eq!(draft.complete(), None);
}

#[test]
fn coordinates_are_latitude_longitude_accuracy() {
    let triple = seoul().coordinates();
    assert_eq!(triple, vec![number(37.5665), number(126.9780), number(12.5)]);
    let values: Vec<f64> = triple.iter().map(|n| f64::from_bits(n.bits)).collect();
    assert_eq!(values, vec![37.5665, 126.9780, 12.5]);
}

#[test]
fn numbers_keep_every_bit() {
    let patterns = [
        0u64,
        0x8000_0000_0000_0000,
        1,
        0x000f_ffff_ffff_ffff,
        0x7fef_ffff_ffff_ffff,
        0xffef_ffff_ffff_ffff,
        0x3fb9_9999_9999_999a,
        u64::MAX,
    ];
    for bits in patterns {
        let report = LocationData {
            latitude: Binary64 { bits },
            longitude: Binary64 { bits: !bits },
            accuracy: Binary64 { bits: bits.rotate_left(7) },
            timestamp: i64::MIN,
        };
        let back = draft_of(report).complete().unwrap();
        assert_eq!(back.latitude.bits, bits);
        assert_eq!(back.longitude.bits, !bits);
        assert_eq!(back.accuracy.bits, bits.rotate_left(7));
        assert_eq!(back.timestamp, i64::MIN);
        let triple = report.coordinates();
        assert_eq!(triple.len(), 3);
        assert_eq!(triple[0].bits, bits);
        assert_eq!(triple[1].bits, !bits);
        assert_eq!(triple[2].bits, bits.rotate_left(7));
    }
}

#[test]
fn timestamp_limits_are_kept() {
    for timestamp in [i64::MIN, -1, 0, 1, 1_700_000_000_000, i64::MAX] {
        let report = LocationData { timestamp, ..seoul() };
        assert_eq!(draft_of(report).complete(), Some(report));
    }
}
