use pinenote_ctl::ebc::{
    performance_mode_line_string, performance_mode_wire_values, waveform_line_string, DisplayOp,
    Ebc,
};
use pinenote_ctl::errors::{DecodeKind, Error};
use pinenote_ctl::pinenote::{travel_mode_line_string, MiscOp, Pinenote};
use pinenote_ctl::remote::Reply;
use pinenote_ctl::toggle::{OnOffState, OnOffToggleState};
use pinenote_ctl::waveform::Waveform;

#[test]
fn set_performance_mode_issues_both_writes_in_order() {
    let mut ebc = Ebc::new(vec![]);
    assert_eq!(ebc.set_performance_mode(OnOffState::On), Ok(()));
    assert_eq!(
        ebc.issued,
        vec![
            DisplayOp::SetDclkSelect(1),
            DisplayOp::RequestQualityOrPerformance(0),
        ]
    );

    let mut ebc = Ebc::new(vec![]);
    assert_eq!(ebc.set_performance_mode(OnOffState::Off), Ok(()));
    assert_eq!(
        ebc.issued,
        vec![
            DisplayOp::SetDclkSelect(0),
            DisplayOp::RequestQualityOrPerformance(1),
        ]
    );
}

#[test]
fn change_performance_mode_toggle_reads_once_then_writes_negated() {
    let mut ebc = Ebc::new(vec![Reply::Value(1)]);
    assert_eq!(ebc.change_performance_mode(OnOffToggleState::Toggle), Ok(()));
    assert_eq!(
        ebc.issued,
        vec![
            DisplayOp::GetDclkSelect,
            DisplayOp::SetDclkSelect(0),
            DisplayOp::RequestQualityOrPerformance(1),
        ]
    );
    assert!(ebc.replies.is_empty());
}

#[test]
fn change_performance_mode_explicit_issues_no_read() {
    let mut ebc = Ebc::new(vec![Reply::Value(1)]);
    assert_eq!(ebc.change_performance_mode(OnOffToggleState::On), Ok(()));
    assert_eq!(
        ebc.issued,
        vec![
            DisplayOp::SetDclkSelect(1),
            DisplayOp::RequestQualityOrPerformance(0),
        ]
    );
    // The scripted reply was not consumed: no read was issued.
    assert_eq!(ebc.replies, vec![Reply::Value(1)]);
}

#[test]
fn change_performance_mode_toggle_propagates_decode_error() {
    let mut ebc = Ebc::new(vec![Reply::Value(5)]);
    let r = ebc.change_performance_mode(OnOffToggleState::Toggle);
    assert_eq!(r, Err(Error::Decode(DecodeKind::PerformanceMode, 5)));
    assert_eq!(ebc.issued, vec![DisplayOp::GetDclkSelect]);
}

#[test]
fn get_performance_mode_decodes_the_wire_value() {
    let mut ebc = Ebc::new(vec![Reply::Value(1), Reply::Value(0), Reply::Value(7)]);
    assert_eq!(ebc.get_performance_mode(), Ok(OnOffState::On));
    assert_eq!(ebc.get_performance_mode(), Ok(OnOffState::Off));
    assert_eq!(
        ebc.get_performance_mode(),
        Err(Error::Decode(DecodeKind::PerformanceMode, 7))
    );
    assert_eq!(ebc.get_performance_mode(), Err(Error::RemoteCall));
}

#[test]
fn full_refresh_issues_the_trigger() {
    let mut ebc = Ebc::new(vec![]);
    assert_eq!(ebc.full_refresh(), Ok(()));
    assert_eq!(ebc.issued, vec![DisplayOp::TriggerGlobalRefresh]);
}

#[test]
fn waveform_get_and_set_use_the_wire_codes() {
    let mut ebc = Ebc::new(vec![Reply::Value(4), Reply::Value(9)]);
    assert_eq!(ebc.set_waveform(Waveform::GLR16), Ok(()));
    assert_eq!(ebc.get_waveform(), Ok(Waveform::GC16));
    assert_eq!(
        ebc.get_waveform(),
        Err(Error::Decode(DecodeKind::Waveform, 9))
    );
    assert_eq!(
        ebc.issued,
        vec![
            DisplayOp::SetDefaultWaveform(7),
            DisplayOp::GetDefaultWaveform,
            DisplayOp::GetDefaultWaveform,
        ]
    );
}

#[test]
fn ebc_awaits_consume_one_notification() {
    let mut ebc = Ebc::new(vec![Reply::Notify, Reply::Notify]);
    assert_eq!(ebc.await_performance_mode_change(), Ok(()));
    assert_eq!(ebc.await_waveform_change(), Ok(()));
    assert_eq!(ebc.await_waveform_change(), Err(Error::RemoteCall));
    assert_eq!(
        ebc.issued,
        vec![
            DisplayOp::AwaitDclkSelectChanged,
            DisplayOp::AwaitDefaultWaveformChanged,
            DisplayOp::AwaitDefaultWaveformChanged,
        ]
    );
}

#[test]
fn set_travel_mode_is_one_call_per_direction() {
    let mut pn = Pinenote::new(vec![], vec![]);
    assert_eq!(pn.set_travel_mode(OnOffState::On), Ok(()));
    assert_eq!(pn.set_travel_mode(OnOffState::Off), Ok(()));
    assert_eq!(
        pn.misc_issued,
        vec![MiscOp::EnableTravelMode, MiscOp::DisableTravelMode]
    );
}

#[test]
fn get_travel_mode_decodes_the_wire_value() {
    let mut pn = Pinenote::new(vec![], vec![Reply::Value(0), Reply::Value(3)]);
    assert_eq!(pn.get_travel_mode(), Ok(OnOffState::Off));
    let e = pn.get_travel_mode().unwrap_err();
    assert_eq!(e, Error::Decode(DecodeKind::TravelMode, 3));
    assert_eq!(e.message(), "Unable to parse travel mode '3'");
}

#[test]
fn change_travel_mode_toggle_reads_once_then_writes_negated() {
    let mut pn = Pinenote::new(vec![], vec![Reply::Value(1)]);
    assert_eq!(pn.change_travel_mode(OnOffToggleState::Toggle), Ok(()));
    assert_eq!(
        pn.misc_issued,
        vec![MiscOp::GetTravelMode, MiscOp::DisableTravelMode]
    );

    let mut pn = Pinenote::new(vec![], vec![Reply::Value(0)]);
    assert_eq!(pn.change_travel_mode(OnOffToggleState::Toggle), Ok(()));
    assert_eq!(
        pn.misc_issued,
        vec![MiscOp::GetTravelMode, MiscOp::EnableTravelMode]
    );
}

#[test]
fn change_travel_mode_explicit_issues_no_read() {
    let mut pn = Pinenote::new(vec![], vec![Reply::Value(1)]);
    assert_eq!(pn.change_travel_mode(OnOffToggleState::Off), Ok(()));
    assert_eq!(pn.misc_issued, vec![MiscOp::DisableTravelMode]);
    assert_eq!(pn.misc_replies, vec![Reply::Value(1)]);
}

#[test]
fn await_travel_mode_change_consumes_one_notification() {
    let mut pn = Pinenote::new(vec![], vec![Reply::Notify]);
    assert_eq!(pn.await_travel_mode_change(), Ok(()));
    assert_eq!(pn.await_travel_mode_change(), Err(Error::RemoteCall));
    assert_eq!(
        pn.misc_issued,
        vec![MiscOp::AwaitTravelModeChanged, MiscOp::AwaitTravelModeChanged]
    );
}

#[test]
fn fresh_handles_have_issued_nothing() {
    let pn = Pinenote::new(vec![Reply::Value(1)], vec![Reply::Notify]);
    assert!(pn.ebc().issued.is_empty());
    assert!(pn.misc_issued.is_empty());
    assert_eq!(pn.ebc.replies, vec![Reply::Value(1)]);
    assert_eq!(pn.misc_replies, vec![Reply::Notify]);
}

#[test]
fn wire_value_pairs_and_printed_lines() {
    assert_eq!(performance_mode_wire_values(OnOffState::On), (1, 0));
    assert_eq!(performance_mode_wire_values(OnOffState::Off), (0, 1));
    assert_eq!(
        performance_mode_line_string(OnOffState::On),
        "performance-mode: on"
    );
    assert_eq!(waveform_line_string(Waveform::GLD16), "waveform: gld16");
    assert_eq!(travel_mode_line_string(OnOffState::Off), "travel-mode: off");
}
