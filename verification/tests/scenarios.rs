use pinenote_ctl::command::{AwaitTarget, Command};
use pinenote_ctl::ebc::DisplayOp;
use pinenote_ctl::errors::{DecodeKind, Error};
use pinenote_ctl::pinenote::{MiscOp, Pinenote};
use pinenote_ctl::remote::Reply;
use pinenote_ctl::toggle::OnOffToggleState;
use pinenote_ctl::waveform::Waveform;

#[test]
fn waveform_gc16_sets_code_4_then_reads_and_prints() {
    let mut pn = Pinenote::new(vec![Reply::Value(4)], vec![]);
    let mut out: Vec<String> = Vec::new();
    let cmd = Command::Waveform { selection: Some(Waveform::GC16) };
    assert_eq!(cmd.exec(&mut pn, &mut out), Ok(()));
    assert_eq!(
        pn.ebc.issued,
        vec![DisplayOp::SetDefaultWaveform(4), DisplayOp::GetDefaultWaveform]
    );
    assert_eq!(out, vec!["waveform: gc16"]);
    assert!(pn.misc_issued.is_empty());
}

#[test]
fn performance_mode_without_action_reads_once_and_writes_nothing() {
    let mut pn = Pinenote::new(vec![Reply::Value(1)], vec![]);
    let mut out: Vec<String> = Vec::new();
    let cmd = Command::PerformanceMode { action: None };
    assert_eq!(cmd.exec(&mut pn, &mut out), Ok(()));
    assert_eq!(pn.ebc.issued, vec![DisplayOp::GetDclkSelect]);
    assert_eq!(out, vec!["performance-mode: on"]);

    let mut pn = Pinenote::new(vec![Reply::Value(0)], vec![]);
    let mut out: Vec<String> = Vec::new();
    let cmd = Command::PerformanceMode { action: None };
    assert_eq!(cmd.exec(&mut pn, &mut out), Ok(()));
    assert_eq!(pn.ebc.issued, vec![DisplayOp::GetDclkSelect]);
    assert_eq!(out, vec!["performance-mode: off"]);
}

#[test]
fn performance_mode_toggle_then_prints_the_read_back_value() {
    let mut pn = Pinenote::new(vec![Reply::Value(0), Reply::Value(1)], vec![]);
    let mut out: Vec<String> = Vec::new();
    let cmd = Command::PerformanceMode { action: Some(OnOffToggleState::Toggle) };
    assert_eq!(cmd.exec(&mut pn, &mut out), Ok(()));
    assert_eq!(
        pn.ebc.issued,
        vec![
            DisplayOp::GetDclkSelect,
            DisplayOp::SetDclkSelect(1),
            DisplayOp::RequestQualityOrPerformance(0),
            DisplayOp::GetDclkSelect,
        ]
    );
    assert_eq!(out, vec!["performance-mode: on"]);
}

#[test]
fn await_waveform_changed_waits_once_then_reads_and_prints() {
    let mut pn = Pinenote::new(vec![Reply::Notify, Reply::Value(2)], vec![]);
    let mut out: Vec<String> = Vec::new();
    let cmd = Command::Await { target: AwaitTarget::WaveformChanged, repeat: false };
    assert_eq!(cmd.exec(&mut pn, &mut out), Ok(()));
    assert_eq!(
        pn.ebc.issued,
        vec![
            DisplayOp::AwaitDefaultWaveformChanged,
            DisplayOp::GetDefaultWaveform,
        ]
    );
    assert_eq!(out, vec!["waveform: du"]);
}

#[test]
fn await_waveform_changed_with_loop_repeats_until_the_remote_stops() {
    let script = vec![
        Reply::Notify,
        Reply::Value(2),
        Reply::Notify,
        Reply::Value(4),
    ];
    let mut pn = Pinenote::new(script, vec![]);
    let mut out: Vec<String> = Vec::new();
    let cmd = Command::Await { target: AwaitTarget::WaveformChanged, repeat: true };
    // Over a scripted remote the loop ends when the script runs out; against
    // the real bus it would block for the next notification instead.
    assert_eq!(cmd.exec(&mut pn, &mut out), Err(Error::RemoteCall));
    assert_eq!(out, vec!["waveform: du", "waveform: gc16"]);
    assert_eq!(
        pn.ebc.issued,
        vec![
            DisplayOp::AwaitDefaultWaveformChanged,
            DisplayOp::GetDefaultWaveform,
            DisplayOp::AwaitDefaultWaveformChanged,
            DisplayOp::GetDefaultWaveform,
            DisplayOp::AwaitDefaultWaveformChanged,
        ]
    );
}

#[test]
fn performance_mode_value_7_fails_with_the_quoted_value() {
    let mut pn = Pinenote::new(vec![Reply::Value(7)], vec![]);
    let mut out: Vec<String> = Vec::new();
    let cmd = Command::PerformanceMode { action: None };
    let e = cmd.exec(&mut pn, &mut out).unwrap_err();
    assert_eq!(e, Error::Decode(DecodeKind::PerformanceMode, 7));
    assert_eq!(e.message(), "Unable to parse performance mode '7'");
    assert!(out.is_empty());
}

#[test]
fn info_prints_travel_waveform_and_performance_in_order() {
    let mut pn = Pinenote::new(
        vec![Reply::Value(3), Reply::Value(0)],
        vec![Reply::Value(1)],
    );
    let mut out: Vec<String> = Vec::new();
    assert_eq!(Command::Info.exec(&mut pn, &mut out), Ok(()));
    assert_eq!(
        out,
        vec!["travel-mode: on", "waveform: du4", "performance-mode: off"]
    );
    assert_eq!(
        pn.ebc.issued,
        vec![DisplayOp::GetDefaultWaveform, DisplayOp::GetDclkSelect]
    );
    assert_eq!(pn.misc_issued, vec![MiscOp::GetTravelMode]);
}

#[test]
fn info_stops_at_the_first_error_but_keeps_earlier_lines() {
    let mut pn = Pinenote::new(vec![Reply::Value(9)], vec![Reply::Value(0)]);
    let mut out: Vec<String> = Vec::new();
    let e = Command::Info.exec(&mut pn, &mut out).unwrap_err();
    assert_eq!(e, Error::Decode(DecodeKind::Waveform, 9));
    assert_eq!(out, vec!["travel-mode: off"]);
}

#[test]
fn full_refresh_triggers_and_prints_nothing() {
    let mut pn = Pinenote::new(vec![], vec![]);
    let mut out: Vec<String> = Vec::new();
    assert_eq!(Command::FullRefresh.exec(&mut pn, &mut out), Ok(()));
    assert_eq!(pn.ebc.issued, vec![DisplayOp::TriggerGlobalRefresh]);
    assert!(out.is_empty());
    assert!(pn.misc_issued.is_empty());
}

#[test]
fn travel_mode_toggle_then_prints_the_read_back_value() {
    let mut pn = Pinenote::new(vec![], vec![Reply::Value(1), Reply::Value(0)]);
    let mut out: Vec<String> = Vec::new();
    let cmd = Command::TravelMode { action: Some(OnOffToggleState::Toggle) };
    assert_eq!(cmd.exec(&mut pn, &mut out), Ok(()));
    assert_eq!(
        pn.misc_issued,
        vec![
            MiscOp::GetTravelMode,
            MiscOp::DisableTravelMode,
            MiscOp::GetTravelMode,
        ]
    );
    assert_eq!(out, vec!["travel-mode: off"]);
    assert!(pn.ebc.issued.is_empty());
}

#[test]
fn await_travel_mode_changed_waits_once_then_reads_and_prints() {
    let mut pn = Pinenote::new(vec![], vec![Reply::Notify, Reply::Value(1)]);
    let mut out: Vec<String> = Vec::new();
    let cmd = Command::Await { target: AwaitTarget::TravelModeChanged, repeat: false };
    assert_eq!(cmd.exec(&mut pn, &mut out), Ok(()));
    assert_eq!(
        pn.misc_issued,
        vec![MiscOp::AwaitTravelModeChanged, MiscOp::GetTravelMode]
    );
    assert_eq!(out, vec!["travel-mode: on"]);
}

#[test]
fn await_performance_mode_changed_waits_once_then_reads_and_prints() {
    let mut pn = Pinenote::new(vec![Reply::Notify, Reply::Value(0)], vec![]);
    let mut out: Vec<String> = Vec::new();
    let cmd = Command::Await { target: AwaitTarget::PerformanceModeChanged, repeat: false };
    assert_eq!(cmd.exec(&mut pn, &mut out), Ok(()));
    assert_eq!(
        pn.ebc.issued,
        vec![DisplayOp::AwaitDclkSelectChanged, DisplayOp::GetDclkSelect]
    );
    assert_eq!(out, vec!["performance-mode: off"]);
}

#[test]
fn await_without_notification_fails_as_a_remote_error() {
    let mut pn = Pinenote::new(vec![Reply::Value(1)], vec![]);
    let mut out: Vec<String> = Vec::new();
    let cmd = Command::Await { target: AwaitTarget::WaveformChanged, repeat: false };
    assert_eq!(cmd.exec(&mut pn, &mut out), Err(Error::RemoteCall));
    assert_eq!(pn.ebc.issued, vec![DisplayOp::AwaitDefaultWaveformChanged]);
    assert!(out.is_empty());
}
