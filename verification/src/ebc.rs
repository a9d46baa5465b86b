//! The display-controller proxy: typed access to the controller's refresh,
//! waveform and performance-mode surface.
//!
//! Performance mode is a paired two-property setting: turning it on writes
//! clock-select 1 and then the quality-or-performance request 0, turning it
//! off writes clock-select 0 and then the request 1. Both writes are always
//! issued, in that order, with no rollback if the second fails — remote
//! atomicity across the two properties is outside this controller's control.
//!
//! The proxy records every bus operation it issues, in order, in `issued`,
//! and consumes scripted replies from `replies`; the runtime adapter issues
//! the same operations against the real bus.

use vstd::prelude::*;
use vstd::string::StringExecFns;

use crate::errors::{DecodeKind, Error};
use crate::remote::{
    notify_reply_spec, read_reply_spec, take_notify, take_value, Reply,
};
use crate::toggle::{
    spec_decode_on_off, spec_negate, spec_on_off_name, OnOffState, OnOffToggleState,
};
use crate::waveform::{spec_decode_waveform, spec_waveform_code, spec_waveform_name, Waveform};

verus! {

/// One bus operation of the display-controller proxy, as recorded in the
/// order it was issued.
#[derive(Clone, Copy, Debug, PartialEq, Eq, Structural)]
pub enum DisplayOp {
    /// Read of the clock-select property.
    GetDclkSelect,
    /// Write of the clock-select property.
    SetDclkSelect(u8),
    /// Write of the quality-or-performance request.
    RequestQualityOrPerformance(u8),
    /// Read of the default-waveform property.
    GetDefaultWaveform,
    /// Write of the default-waveform property.
    SetDefaultWaveform(u8),
    /// The no-argument global refresh trigger.
    TriggerGlobalRefresh,
    /// Blocking wait for one clock-select change notification.
    AwaitDclkSelectChanged,
    /// Blocking wait for one default-waveform change notification.
    AwaitDefaultWaveformChanged,
}

/// The display-controller proxy over a scripted remote.
pub struct Ebc {
    /// Every operation issued so far, in order.
    pub issued: Vec<DisplayOp>,
    /// The replies the remote service has yet to give, front first.
    pub replies: Vec<Reply>,
}

/// The two writes that set the performance mode: the clock-select value and
/// then the quality-or-performance request, with fixed value pairs:
/// on maps to (1, 0), off maps to (0, 1).
pub open spec fn perf_mode_writes(state: OnOffState) -> Seq<DisplayOp> {
    match state {
        OnOffState::On => seq![
            DisplayOp::SetDclkSelect(1u8),
            DisplayOp::RequestQualityOrPerformance(0u8),
        ],
        OnOffState::Off => seq![
            DisplayOp::SetDclkSelect(0u8),
            DisplayOp::RequestQualityOrPerformance(1u8),
        ],
    }
}

/// What a performance-mode read returns, given the pending replies, and the
/// replies that remain: the front value decoded as a binary state, a decode
/// error for a value outside 0 and 1, or a remote-call error when the
/// service gives no value.
pub open spec fn get_performance_mode_spec(replies: Seq<Reply>) -> (Result<OnOffState, Error>, Seq<
    Reply,
>) {
    let (v, rest) = read_reply_spec(replies);
    match v {
        Some(n) => (
            match spec_decode_on_off(n) {
                Some(s) => Result::<OnOffState, Error>::Ok(s),
                None => Result::<OnOffState, Error>::Err(
                    Error::Decode(DecodeKind::PerformanceMode, n),
                ),
            },
            rest,
        ),
        None => (Result::<OnOffState, Error>::Err(Error::RemoteCall), rest),
    }
}

/// What a change of the performance mode does, given the request and the
/// pending replies: the result, the replies that remain, and the operations
/// issued. An explicit request issues no read and exactly the two writes of
/// that state; a toggle request issues one read first and, when the read
/// decodes, the two writes of the negated state.
pub open spec fn change_performance_mode_spec(
    request: OnOffToggleState,
    replies: Seq<Reply>,
) -> (Result<(), Error>, Seq<Reply>, Seq<DisplayOp>) {
    match request {
        OnOffToggleState::On => (Result::<(), Error>::Ok(()), replies, perf_mode_writes(OnOffState::On)),
        OnOffToggleState::Off => (
            Result::<(), Error>::Ok(()),
            replies,
            perf_mode_writes(OnOffState::Off),
        ),
        OnOffToggleState::Toggle => {
            let (r, rest) = get_performance_mode_spec(replies);
            match r {
                Ok(s) => (
                    Result::<(), Error>::Ok(()),
                    rest,
                    seq![DisplayOp::GetDclkSelect] + perf_mode_writes(spec_negate(s)),
                ),
                Err(e) => (Result::<(), Error>::Err(e), rest, seq![DisplayOp::GetDclkSelect]),
            }
        },
    }
}

/// What a waveform read returns, given the pending replies, and the replies
/// that remain.
pub open spec fn get_waveform_spec(replies: Seq<Reply>) -> (Result<Waveform, Error>, Seq<Reply>) {
    let (v, rest) = read_reply_spec(replies);
    match v {
        Some(n) => (
            match spec_decode_waveform(n) {
                Some(w) => Result::<Waveform, Error>::Ok(w),
                None => Result::<Waveform, Error>::Err(Error::Decode(DecodeKind::Waveform, n)),
            },
            rest,
        ),
        None => (Result::<Waveform, Error>::Err(Error::RemoteCall), rest),
    }
}

/// The line printed for a performance-mode value.
pub open spec fn performance_mode_line(s: OnOffState) -> Seq<char> {
    "performance-mode: "@ + spec_on_off_name(s)
}

/// The line printed for a waveform value.
pub open spec fn waveform_line(w: Waveform) -> Seq<char> {
    "waveform: "@ + spec_waveform_name(w)
}

/// The pair of wire values a performance-mode write sends: the clock-select
/// value and the quality-or-performance request, (1, 0) for on and (0, 1)
/// for off.
pub fn performance_mode_wire_values(state: OnOffState) -> (r: (u8, u8))
    ensures
        perf_mode_writes(state) == seq![
            DisplayOp::SetDclkSelect(r.0),
            DisplayOp::RequestQualityOrPerformance(r.1),
        ],
{
    match state {
        OnOffState::On => (1, 0),
        OnOffState::Off => (0, 1),
    }
}

/// Builds the line printed for a performance-mode value.
pub fn performance_mode_line_string(s: OnOffState) -> (r: String)
    ensures
        r@ == performance_mode_line(s),
{
    let mut line = String::from_str("performance-mode: ");
    let name = s.name();
    line.append(name.as_str());
    line
}

/// Builds the line printed for a waveform value.
pub fn waveform_line_string(w: Waveform) -> (r: String)
    ensures
        r@ == waveform_line(w),
{
    let mut line = String::from_str("waveform: ");
    let name = w.name();
    line.append(name.as_str());
    line
}

impl Ebc {
    /// A proxy over a scripted remote that will give the replies in order.
    /// No operation has been issued yet.
    pub fn new(replies: Vec<Reply>) -> (r: Ebc)
        ensures
            r.issued@ == Seq::<DisplayOp>::empty(),
            r.replies@ == replies@,
    {
        Ebc { issued: Vec::new(), replies }
    }

    /// Sends the fire-and-forget global refresh trigger.
    pub fn full_refresh(&mut self) -> (r: Result<(), Error>)
        ensures
            final(self).issued@ == old(self).issued@.push(DisplayOp::TriggerGlobalRefresh),
            final(self).replies@ == old(self).replies@,
            r == Result::<(), Error>::Ok(()),
    {
        self.issued.push(DisplayOp::TriggerGlobalRefresh);
        Ok(())
    }

    /// Writes the performance mode: always both the clock-select write and
    /// the quality-or-performance write, in that order, with the fixed value
    /// pairs on maps to (1, 0) and off maps to (0, 1). No read is issued.
    pub fn set_performance_mode(&mut self, state: OnOffState) -> (r: Result<(), Error>)
        ensures
            final(self).issued@ == old(self).issued@ + perf_mode_writes(state),
            final(self).replies@ == old(self).replies@,
            r == Result::<(), Error>::Ok(()),
    {
        let (dclk_val, qop_val): (u8, u8) = performance_mode_wire_values(state);
        self.issued.push(DisplayOp::SetDclkSelect(dclk_val));
        self.issued.push(DisplayOp::RequestQualityOrPerformance(qop_val));
        proof {
            assert(self.issued@ =~= old(self).issued@ + perf_mode_writes(state));
        }
        Ok(())
    }

    /// Reads the clock-select property and decodes it: 1 is on, 0 is off,
    /// and any other value is a decode error carrying that value.
    pub fn get_performance_mode(&mut self) -> (r: Result<OnOffState, Error>)
        ensures
            final(self).issued@ == old(self).issued@.push(DisplayOp::GetDclkSelect),
            r == get_performance_mode_spec(old(self).replies@).0,
            final(self).replies@ == get_performance_mode_spec(old(self).replies@).1,
    {
        self.issued.push(DisplayOp::GetDclkSelect);
        match take_value(&mut self.replies) {
            Some(n) => match OnOffState::try_from(n) {
                Ok(s) => Ok(s),
                Err(v) => Err(Error::Decode(DecodeKind::PerformanceMode, v)),
            },
            None => Err(Error::RemoteCall),
        }
    }

    /// Applies a tri-state request to the performance mode. A toggle request
    /// first reads the current mode, negates it and writes the result — one
    /// extra remote read compared to an explicit request, and inherently racy
    /// against concurrent writers (read then write, no compare-and-swap). An
    /// explicit request is written directly, with no read.
    pub fn change_performance_mode(&mut self, request: OnOffToggleState) -> (r: Result<(), Error>)
        ensures
            r == change_performance_mode_spec(request, old(self).replies@).0,
            final(self).replies@ == change_performance_mode_spec(request, old(self).replies@).1,
            final(self).issued@ == old(self).issued@ + change_performance_mode_spec(
                request,
                old(self).replies@,
            ).2,
    {
        match request {
            OnOffToggleState::Toggle => {
                match self.get_performance_mode() {
                    Ok(current) => {
                        let r = self.set_performance_mode(current.negate());
                        proof {
                            assert(self.issued@ =~= old(self).issued@
                                + change_performance_mode_spec(request, old(self).replies@).2);
                        }
                        r
                    },
                    Err(e) => {
                        proof {
                            assert(self.issued@ =~= old(self).issued@ + seq![
                                DisplayOp::GetDclkSelect,
                            ]);
                        }
                        Err(e)
                    },
                }
            },
            other => {
                match OnOffState::try_from_request(other) {
                    Ok(state) => self.set_performance_mode(state),
                    Err(_) => unreached(),
                }
            },
        }
    }

    /// Reads the performance mode and appends its line to the output.
    pub fn print_performance_mode(&mut self, out: &mut Vec<String>) -> (r: Result<(), Error>)
        ensures
            final(self).issued@ == old(self).issued@.push(DisplayOp::GetDclkSelect),
            ({
                let (res, rest) = get_performance_mode_spec(old(self).replies@);
                final(self).replies@ == rest && match res {
                    Ok(s) => r == Result::<(), Error>::Ok(()) && final(out).deep_view() == old(out).deep_view().push(
                        performance_mode_line(s),
                    ),
                    Err(e) => r == Result::<(), Error>::Err(e) && final(out).deep_view() == old(
                        out,
                    ).deep_view(),
                }
            }),
    {
        match self.get_performance_mode() {
            Ok(s) => {
                let line = performance_mode_line_string(s);
                out.push(line);
                proof {
                    assert(out.deep_view() =~~= old(out).deep_view().push(
                        performance_mode_line(s),
                    ));
                }
                Ok(())
            },
            Err(e) => Err(e),
        }
    }

    /// Blocks until one clock-select change notification arrives. The new
    /// value is not re-read here; the caller queries separately.
    pub fn await_performance_mode_change(&mut self) -> (r: Result<(), Error>)
        ensures
            final(self).issued@ == old(self).issued@.push(DisplayOp::AwaitDclkSelectChanged),
            r == (if notify_reply_spec(old(self).replies@).0 {
                Result::<(), Error>::Ok(())
            } else {
                Result::<(), Error>::Err(Error::RemoteCall)
            }),
            final(self).replies@ == notify_reply_spec(old(self).replies@).1,
    {
        self.issued.push(DisplayOp::AwaitDclkSelectChanged);
        if take_notify(&mut self.replies) {
            Ok(())
        } else {
            Err(Error::RemoteCall)
        }
    }

    /// Writes the default-waveform property with the waveform's wire code.
    pub fn set_waveform(&mut self, waveform: Waveform) -> (r: Result<(), Error>)
        ensures
            final(self).issued@ == old(self).issued@.push(
                DisplayOp::SetDefaultWaveform(spec_waveform_code(waveform)),
            ),
            final(self).replies@ == old(self).replies@,
            r == Result::<(), Error>::Ok(()),
    {
        let code = waveform.code();
        self.issued.push(DisplayOp::SetDefaultWaveform(code));
        Ok(())
    }

    /// Reads the default-waveform property and decodes it; a code outside
    /// 1 to 8 is a decode error carrying that code.
    pub fn get_waveform(&mut self) -> (r: Result<Waveform, Error>)
        ensures
            final(self).issued@ == old(self).issued@.push(DisplayOp::GetDefaultWaveform),
            r == get_waveform_spec(old(self).replies@).0,
            final(self).replies@ == get_waveform_spec(old(self).replies@).1,
    {
        self.issued.push(DisplayOp::GetDefaultWaveform);
        match take_value(&mut self.replies) {
            Some(n) => Waveform::try_from(n),
            None => Err(Error::RemoteCall),
        }
    }

    /// Reads the waveform and appends its line to the output.
    pub fn print_waveform(&mut self, out: &mut Vec<String>) -> (r: Result<(), Error>)
        ensures
            final(self).issued@ == old(self).issued@.push(DisplayOp::GetDefaultWaveform),
            ({
                let (res, rest) = get_waveform_spec(old(self).replies@);
                final(self).replies@ == rest && match res {
                    Ok(w) => r == Result::<(), Error>::Ok(()) && final(out).deep_view() == old(out).deep_view().push(
                        waveform_line(w),
                    ),
                    Err(e) => r == Result::<(), Error>::Err(e) && final(out).deep_view() == old(
                        out,
                    ).deep_view(),
                }
            }),
    {
        match self.get_waveform() {
            Ok(w) => {
                let line = waveform_line_string(w);
                out.push(line);
                proof {
                    assert(out.deep_view() =~~= old(out).deep_view().push(waveform_line(w)));
                }
                Ok(())
            },
            Err(e) => Err(e),
        }
    }

    /// Blocks until one default-waveform change notification arrives. The
    /// new value is not re-read here; the caller queries separately.
    pub fn await_waveform_change(&mut self) -> (r: Result<(), Error>)
        ensures
            final(self).issued@ == old(self).issued@.push(DisplayOp::AwaitDefaultWaveformChanged),
            r == (if notify_reply_spec(old(self).replies@).0 {
                Result::<(), Error>::Ok(())
            } else {
                Result::<(), Error>::Err(Error::RemoteCall)
            }),
            final(self).replies@ == notify_reply_spec(old(self).replies@).1,
    {
        self.issued.push(DisplayOp::AwaitDefaultWaveformChanged);
        if take_notify(&mut self.replies) {
            Ok(())
        } else {
            Err(Error::RemoteCall)
        }
    }
}

/// The remote calls a performance-mode change issues, stated plainly: an
/// explicit on or off request issues zero reads and exactly the two writes
/// of the given state; a toggle request whose read decodes issues exactly one
/// read followed by the two writes of the negated state.
pub proof fn lemma_change_performance_mode_calls(request: OnOffToggleState, replies: Seq<Reply>)
    ensures
        request is On ==> change_performance_mode_spec(request, replies).2 == perf_mode_writes(
            OnOffState::On,
        ),
        request is Off ==> change_performance_mode_spec(request, replies).2 == perf_mode_writes(
            OnOffState::Off,
        ),
        request is Toggle ==> (get_performance_mode_spec(replies).0 matches Ok(s)
            ==> change_performance_mode_spec(request, replies).2 == seq![DisplayOp::GetDclkSelect]
            + perf_mode_writes(spec_negate(s))),
{
}

} // verus!
