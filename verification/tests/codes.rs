use wfm::{Bandwidth, Coupling, Error, Filter, Source, TriggerMode, Unit};

#[test]
fn bandwidth_codes() {
    let all = [
        Bandwidth::NoLimit,
        Bandwidth::Mhz20,
        Bandwidth::Mhz100,
        Bandwidth::Mhz200,
        Bandwidth::Mhz250,
    ];
    for (raw, variant) in all.iter().enumerate() {
        assert_eq!(Bandwidth::try_from(raw as u8), Ok(*variant));
        assert_eq!(Bandwidth::decode(raw as u8, 7), Ok(*variant));
        assert_eq!(variant.code(), raw as u8);
    }
    assert_eq!(Bandwidth::MAX_CODE, 4);
    assert_eq!(Bandwidth::try_from(5), Err(()));
    assert_eq!(Bandwidth::decode(5, 7), Err(Error::InvalidEnumCode { offset: 7, code: 5 }));
}

#[test]
fn coupling_codes() {
    let all = [Coupling::Dc, Coupling::Ac, Coupling::Gnd];
    for (raw, variant) in all.iter().enumerate() {
        assert_eq!(Coupling::try_from(raw as u8), Ok(*variant));
        assert_eq!(Coupling::decode(raw as u8, 145), Ok(*variant));
        assert_eq!(variant.code(), raw as u8);
    }
    assert_eq!(Coupling::MAX_CODE, 2);
    assert_eq!(Coupling::try_from(3), Err(()));
    assert_eq!(Coupling::decode(3, 145), Err(Error::InvalidEnumCode { offset: 145, code: 3 }));
}

#[test]
fn filter_codes() {
    let all = [Filter::LowPass, Filter::HighPass, Filter::BandPass, Filter::BandReject];
    for (raw, variant) in all.iter().enumerate() {
        assert_eq!(Filter::try_from(raw as u8), Ok(*variant));
        assert_eq!(Filter::decode(raw as u8, 0), Ok(*variant));
        assert_eq!(variant.code(), raw as u8);
    }
    assert_eq!(Filter::MAX_CODE, 3);
    assert_eq!(Filter::try_from(4), Err(()));
    assert_eq!(Filter::decode(4, 0), Err(Error::InvalidEnumCode { offset: 0, code: 4 }));
}

#[test]
fn source_codes() {
    let all = [
        Source::Ch1,
        Source::Ch2,
        Source::Ext,
        Source::Ext5,
        Source::AcLine,
        Source::DigCh,
    ];
    for (raw, variant) in all.iter().enumerate() {
        assert_eq!(Source::try_from(raw as u8), Ok(*variant));
        assert_eq!(Source::decode(raw as u8, 144), Ok(*variant));
        assert_eq!(variant.code(), raw as u8);
    }
    assert_eq!(Source::MAX_CODE, 5);
    assert_eq!(Source::try_from(6), Err(()));
    assert_eq!(Source::decode(6, 144), Err(Error::InvalidEnumCode { offset: 144, code: 6 }));
}

#[test]
fn trigger_mode_codes() {
    let all = [
        TriggerMode::Edge,
        TriggerMode::Pulse,
        TriggerMode::Slope,
        TriggerMode::Video,
        TriggerMode::Alt,
        TriggerMode::Pattern,
        TriggerMode::Duration,
    ];
    for (raw, variant) in all.iter().enumerate() {
        assert_eq!(TriggerMode::try_from(raw as u8), Ok(*variant));
        assert_eq!(TriggerMode::decode(raw as u8, 142), Ok(*variant));
        assert_eq!(variant.code(), raw as u8);
    }
    assert_eq!(TriggerMode::MAX_CODE, 6);
    assert_eq!(TriggerMode::try_from(7), Err(()));
    assert_eq!(
        TriggerMode::decode(7, 142),
        Err(Error::InvalidEnumCode { offset: 142, code: 7 })
    );
}

#[test]
fn unit_codes() {
    let all = [Unit::W, Unit::A, Unit::V, Unit::U];
    for (raw, variant) in all.iter().enumerate() {
        assert_eq!(Unit::try_from(raw as u8), Ok(*variant));
        assert_eq!(Unit::decode(raw as u8, 1), Ok(*variant));
        assert_eq!(variant.code(), raw as u8);
    }
    assert_eq!(Unit::MAX_CODE, 3);
    assert_eq!(Unit::try_from(4), Err(()));
    assert_eq!(Unit::decode(4, 1), Err(Error::InvalidEnumCode { offset: 1, code: 4 }));
}

#[test]
fn no_code_above_the_largest_decodes() {
    for raw in 0..=255u8 {
        assert_eq!(Bandwidth::try_from(raw).is_ok(), raw <= Bandwidth::MAX_CODE);
        assert_eq!(Coupling::try_from(raw).is_ok(), raw <= Coupling::MAX_CODE);
        assert_eq!(Filter::try_from(raw).is_ok(), raw <= Filter::MAX_CODE);
        assert_eq!(Source::try_from(raw).is_ok(), raw <= Source::MAX_CODE);
        assert_eq!(TriggerMode::try_from(raw).is_ok(), raw <= TriggerMode::MAX_CODE);
        assert_eq!(Unit::try_from(raw).is_ok(), raw <= Unit::MAX_CODE);
    }
}

#[test]
fn codes_are_ordered_as_their_variants() {
    assert!(Coupling::Dc < Coupling::Ac && Coupling::Ac < Coupling::Gnd);
    assert!(TriggerMode::Edge < TriggerMode::Duration);
    assert!(Unit::W < Unit::U);
}
