use pinenote_ctl::errors::{DecodeKind, Error};
use pinenote_ctl::toggle::{OnOffState, OnOffToggleState};
use pinenote_ctl::waveform::Waveform;

#[test]
fn waveform_codes_round_trip() {
    for code in 1u8..=8u8 {
        let w = Waveform::try_from(code).expect("codes 1 to 8 decode");
        assert_eq!(w.code(), code);
    }
}

#[test]
fn waveform_variants_round_trip() {
    let all = [
        Waveform::A2,
        Waveform::DU,
        Waveform::DU4,
        Waveform::GC16,
        Waveform::GCC16,
        Waveform::GL16,
        Waveform::GLR16,
        Waveform::GLD16,
    ];
    for w in all {
        assert_eq!(Waveform::try_from(w.code()), Ok(w));
    }
}

#[test]
fn waveform_rejects_codes_outside_range() {
    for code in [0u8, 9, 10, 100, 255] {
        let r = Waveform::try_from(code);
        assert_eq!(r, Err(Error::Decode(DecodeKind::Waveform, code)));
    }
    let e = Waveform::try_from(9).unwrap_err();
    assert_eq!(e.message(), "Unable to parse waveform '9'");
    let e = Waveform::try_from(255).unwrap_err();
    assert_eq!(e.message(), "Unable to parse waveform '255'");
}

#[test]
fn waveform_names() {
    assert_eq!(Waveform::A2.name(), "a2");
    assert_eq!(Waveform::DU.name(), "du");
    assert_eq!(Waveform::DU4.name(), "du4");
    assert_eq!(Waveform::GC16.name(), "gc16");
    assert_eq!(Waveform::GCC16.name(), "gcc16");
    assert_eq!(Waveform::GL16.name(), "gl16");
    assert_eq!(Waveform::GLR16.name(), "glr16");
    assert_eq!(Waveform::GLD16.name(), "gld16");
}

#[test]
fn negate_is_an_involution() {
    for s in [OnOffState::On, OnOffState::Off] {
        assert_eq!(s.negate().negate(), s);
    }
    assert_eq!(OnOffState::On.negate(), OnOffState::Off);
    assert_eq!(OnOffState::Off.negate(), OnOffState::On);
}

#[test]
fn on_off_wire_codes() {
    assert_eq!(OnOffState::On.encode(), 1);
    assert_eq!(OnOffState::Off.encode(), 0);
    assert_eq!(OnOffState::try_from(1), Ok(OnOffState::On));
    assert_eq!(OnOffState::try_from(0), Ok(OnOffState::Off));
    assert_eq!(OnOffState::try_from(2), Err(2));
    assert_eq!(OnOffState::try_from(7), Err(7));
}

#[test]
fn on_off_bool_conversions() {
    assert!(OnOffState::On.to_bool());
    assert!(!OnOffState::Off.to_bool());
    assert_eq!(OnOffState::from_bool(true), OnOffState::On);
    assert_eq!(OnOffState::from_bool(false), OnOffState::Off);
    assert_eq!(OnOffState::On.name(), "on");
    assert_eq!(OnOffState::Off.name(), "off");
}

#[test]
fn request_resolution() {
    assert_eq!(
        OnOffState::try_from_request(OnOffToggleState::On),
        Ok(OnOffState::On)
    );
    assert_eq!(
        OnOffState::try_from_request(OnOffToggleState::Off),
        Ok(OnOffState::Off)
    );
    let e = OnOffState::try_from_request(OnOffToggleState::Toggle).unwrap_err();
    assert_eq!(e, Error::InvalidConversion);
    assert_eq!(
        e.message(),
        "Attempting to convert 'Toggle' value to OnOffState"
    );
    assert_eq!(
        OnOffToggleState::from_state(OnOffState::On),
        OnOffToggleState::On
    );
    assert_eq!(
        OnOffToggleState::from_state(OnOffState::Off),
        OnOffToggleState::Off
    );
}

#[test]
fn error_messages_quote_the_raw_value() {
    assert_eq!(
        Error::Decode(DecodeKind::PerformanceMode, 7).message(),
        "Unable to parse performance mode '7'"
    );
    assert_eq!(
        Error::Decode(DecodeKind::PerformanceMode, 0).message(),
        "Unable to parse performance mode '0'"
    );
    assert_eq!(
        Error::Decode(DecodeKind::TravelMode, 42).message(),
        "Unable to parse travel mode '42'"
    );
    assert_eq!(
        Error::Decode(DecodeKind::Waveform, 200).message(),
        "Unable to parse waveform '200'"
    );
    assert_eq!(Error::RemoteCall.message(), "remote call failed");
}
