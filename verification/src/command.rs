//! The command dispatcher: six terminal verbs, no intermediate states.
//!
//! A single invocation parses into one verb, the verb drives the relevant
//! proxy or proxies, and every printed property line goes to the output in
//! order. The verbs that take an optional action apply it first and then,
//! unconditionally, read and print the current value — a read after the
//! write, not transactional with it. The await verb blocks on one change
//! notification, prints the refreshed value, and in loop form repeats; in
//! the scripted model a repeated await ends when the script runs out, where
//! the real bus would block for the next notification instead.

use vstd::prelude::*;

use crate::ebc::{
    change_performance_mode_spec, get_performance_mode_spec, get_waveform_spec,
    performance_mode_line, waveform_line, DisplayOp,
};
use crate::errors::Error;
use crate::pinenote::{
    change_travel_mode_spec, get_travel_mode_spec, travel_mode_line, MiscOp, Pinenote,
};
use crate::remote::{notify_reply_spec, Reply};
use crate::toggle::OnOffToggleState;
use crate::waveform::{spec_waveform_code, Waveform};

verus! {

/// The event an await verb waits for.
#[derive(Clone, Copy, Debug, PartialEq, Eq, Structural)]
pub enum AwaitTarget {
    PerformanceModeChanged,
    TravelModeChanged,
    WaveformChanged,
}

/// One parsed invocation of the controller.
#[derive(Clone, Copy, Debug)]
pub enum Command {
    /// Wait for a change of the target property, print the refreshed value,
    /// and with `repeat` set keep waiting and printing.
    Await { target: AwaitTarget, repeat: bool },
    /// Trigger a full refresh of the e-ink screen; print nothing.
    FullRefresh,
    /// Print travel mode, waveform and performance mode, in that order.
    Info,
    /// Optionally apply the action, then read and print performance mode.
    PerformanceMode { action: Option<OnOffToggleState> },
    /// Optionally apply the action, then read and print travel mode.
    TravelMode { action: Option<OnOffToggleState> },
    /// Optionally set the waveform, then read and print it.
    Waveform { selection: Option<Waveform> },
}

/// What the performance-mode verb does, given the optional action and the
/// display controller's pending replies: the result, the replies that
/// remain, the operations issued, and the lines printed.
pub open spec fn performance_mode_cmd_spec(
    action: Option<OnOffToggleState>,
    replies: Seq<Reply>,
) -> (Result<(), Error>, Seq<Reply>, Seq<DisplayOp>, Seq<Seq<char>>) {
    let (r1, rest1, ops1) = match action {
        Some(a) => change_performance_mode_spec(a, replies),
        None => (Result::<(), Error>::Ok(()), replies, Seq::<DisplayOp>::empty()),
    };
    if r1 is Err {
        (r1, rest1, ops1, Seq::<Seq<char>>::empty())
    } else {
        let (r2, rest2) = get_performance_mode_spec(rest1);
        match r2 {
            Ok(s) => (
                Result::<(), Error>::Ok(()),
                rest2,
                ops1.push(DisplayOp::GetDclkSelect),
                seq![performance_mode_line(s)],
            ),
            Err(e) => (
                Result::<(), Error>::Err(e),
                rest2,
                ops1.push(DisplayOp::GetDclkSelect),
                Seq::<Seq<char>>::empty(),
            ),
        }
    }
}

/// What the travel-mode verb does, given the optional action and the
/// miscellaneous service's pending replies.
pub open spec fn travel_mode_cmd_spec(action: Option<OnOffToggleState>, replies: Seq<Reply>) -> (
    Result<(), Error>,
    Seq<Reply>,
    Seq<MiscOp>,
    Seq<Seq<char>>,
) {
    let (r1, rest1, ops1) = match action {
        Some(a) => change_travel_mode_spec(a, replies),
        None => (Result::<(), Error>::Ok(()), replies, Seq::<MiscOp>::empty()),
    };
    if r1 is Err {
        (r1, rest1, ops1, Seq::<Seq<char>>::empty())
    } else {
        let (r2, rest2) = get_travel_mode_spec(rest1);
        match r2 {
            Ok(s) => (
                Result::<(), Error>::Ok(()),
                rest2,
                ops1.push(MiscOp::GetTravelMode),
                seq![travel_mode_line(s)],
            ),
            Err(e) => (
                Result::<(), Error>::Err(e),
                rest2,
                ops1.push(MiscOp::GetTravelMode),
                Seq::<Seq<char>>::empty(),
            ),
        }
    }
}

/// What the waveform verb does, given the optional selection and the display
/// controller's pending replies: an optional write of the selection's code,
/// then one read that is printed when it decodes.
pub open spec fn waveform_cmd_spec(selection: Option<Waveform>, replies: Seq<Reply>) -> (
    Result<(), Error>,
    Seq<Reply>,
    Seq<DisplayOp>,
    Seq<Seq<char>>,
) {
    let ops1 = match selection {
        Some(w) => seq![DisplayOp::SetDefaultWaveform(spec_waveform_code(w))],
        None => Seq::<DisplayOp>::empty(),
    };
    let (r2, rest2) = get_waveform_spec(replies);
    match r2 {
        Ok(w) => (
            Result::<(), Error>::Ok(()),
            rest2,
            ops1.push(DisplayOp::GetDefaultWaveform),
            seq![waveform_line(w)],
        ),
        Err(e) => (
            Result::<(), Error>::Err(e),
            rest2,
            ops1.push(DisplayOp::GetDefaultWaveform),
            Seq::<Seq<char>>::empty(),
        ),
    }
}

/// What the info verb does: read and print travel mode, waveform and
/// performance mode, in that fixed order, stopping at the first error and
/// keeping the lines already printed.
pub open spec fn info_cmd_spec(ebc_replies: Seq<Reply>, misc_replies: Seq<Reply>) -> (
    Result<(), Error>,
    Seq<Reply>,
    Seq<Reply>,
    Seq<DisplayOp>,
    Seq<MiscOp>,
    Seq<Seq<char>>,
) {
    let (rt, mrest) = get_travel_mode_spec(misc_replies);
    match rt {
        Err(e) => (
            Result::<(), Error>::Err(e),
            ebc_replies,
            mrest,
            Seq::<DisplayOp>::empty(),
            seq![MiscOp::GetTravelMode],
            Seq::<Seq<char>>::empty(),
        ),
        Ok(t) => {
            let (rw, erest1) = get_waveform_spec(ebc_replies);
            match rw {
                Err(e) => (
                    Result::<(), Error>::Err(e),
                    erest1,
                    mrest,
                    seq![DisplayOp::GetDefaultWaveform],
                    seq![MiscOp::GetTravelMode],
                    seq![travel_mode_line(t)],
                ),
                Ok(w) => {
                    let (rp, erest2) = get_performance_mode_spec(erest1);
                    match rp {
                        Err(e) => (
                            Result::<(), Error>::Err(e),
                            erest2,
                            mrest,
                            seq![DisplayOp::GetDefaultWaveform, DisplayOp::GetDclkSelect],
                            seq![MiscOp::GetTravelMode],
                            seq![travel_mode_line(t), waveform_line(w)],
                        ),
                        Ok(p) => (
                            Result::<(), Error>::Ok(()),
                            erest2,
                            mrest,
                            seq![DisplayOp::GetDefaultWaveform, DisplayOp::GetDclkSelect],
                            seq![MiscOp::GetTravelMode],
                            seq![
                                travel_mode_line(t),
                                waveform_line(w),
                                performance_mode_line(p),
                            ],
                        ),
                    }
                },
            }
        },
    }
}

/// What one round of the await verb does: block for one notification of the
/// target property, then read and print the refreshed value.
pub open spec fn await_once_spec(
    target: AwaitTarget,
    ebc_replies: Seq<Reply>,
    misc_replies: Seq<Reply>,
) -> (Result<(), Error>, Seq<Reply>, Seq<Reply>, Seq<DisplayOp>, Seq<MiscOp>, Seq<Seq<char>>) {
    match target {
        AwaitTarget::PerformanceModeChanged => {
            let (got, erest1) = notify_reply_spec(ebc_replies);
            if !got {
                (
                    Result::<(), Error>::Err(Error::RemoteCall),
                    erest1,
                    misc_replies,
                    seq![DisplayOp::AwaitDclkSelectChanged],
                    Seq::<MiscOp>::empty(),
                    Seq::<Seq<char>>::empty(),
                )
            } else {
                let (rp, erest2) = get_performance_mode_spec(erest1);
                match rp {
                    Ok(s) => (
                        Result::<(), Error>::Ok(()),
                        erest2,
                        misc_replies,
                        seq![DisplayOp::AwaitDclkSelectChanged, DisplayOp::GetDclkSelect],
                        Seq::<MiscOp>::empty(),
                        seq![performance_mode_line(s)],
                    ),
                    Err(e) => (
                        Result::<(), Error>::Err(e),
                        erest2,
                        misc_replies,
                        seq![DisplayOp::AwaitDclkSelectChanged, DisplayOp::GetDclkSelect],
                        Seq::<MiscOp>::empty(),
                        Seq::<Seq<char>>::empty(),
                    ),
                }
            }
        },
        AwaitTarget::TravelModeChanged => {
            let (got, mrest1) = notify_reply_spec(misc_replies);
            if !got {
                (
                    Result::<(), Error>::Err(Error::RemoteCall),
                    ebc_replies,
                    mrest1,
                    Seq::<DisplayOp>::empty(),
                    seq![MiscOp::AwaitTravelModeChanged],
                    Seq::<Seq<char>>::empty(),
                )
            } else {
                let (rt, mrest2) = get_travel_mode_spec(mrest1);
                match rt {
                    Ok(s) => (
                        Result::<(), Error>::Ok(()),
                        ebc_replies,
                        mrest2,
                        Seq::<DisplayOp>::empty(),
                        seq![MiscOp::AwaitTravelModeChanged, MiscOp::GetTravelMode],
                        seq![travel_mode_line(s)],
                    ),
                    Err(e) => (
                        Result::<(), Error>::Err(e),
                        ebc_replies,
                        mrest2,
                        Seq::<DisplayOp>::empty(),
                        seq![MiscOp::AwaitTravelModeChanged, MiscOp::GetTravelMode],
                        Seq::<Seq<char>>::empty(),
                    ),
                }
            }
        },
        AwaitTarget::WaveformChanged => {
            let (got, erest1) = notify_reply_spec(ebc_replies);
            if !got {
                (
                    Result::<(), Error>::Err(Error::RemoteCall),
                    erest1,
                    misc_replies,
                    seq![DisplayOp::AwaitDefaultWaveformChanged],
                    Seq::<MiscOp>::empty(),
                    Seq::<Seq<char>>::empty(),
                )
            } else {
                let (rw, erest2) = get_waveform_spec(erest1);
                match rw {
                    Ok(w) => (
                        Result::<(), Error>::Ok(()),
                        erest2,
                        misc_replies,
                        seq![
                            DisplayOp::AwaitDefaultWaveformChanged,
                            DisplayOp::GetDefaultWaveform,
                        ],
                        Seq::<MiscOp>::empty(),
                        seq![waveform_line(w)],
                    ),
                    Err(e) => (
                        Result::<(), Error>::Err(e),
                        erest2,
                        misc_replies,
                        seq![
                            DisplayOp::AwaitDefaultWaveformChanged,
                            DisplayOp::GetDefaultWaveform,
                        ],
                        Seq::<MiscOp>::empty(),
                        Seq::<Seq<char>>::empty(),
                    ),
                }
            }
        },
    }
}

/// What the looping await verb does: rounds of wait-then-print until a round
/// fails. Against a real bus the loop never terminates on its own; over a
/// scripted remote it ends when the script runs out, which surfaces as the
/// final round's error.
pub open spec fn await_loop_spec(
    target: AwaitTarget,
    ebc_replies: Seq<Reply>,
    misc_replies: Seq<Reply>,
) -> (Result<(), Error>, Seq<Reply>, Seq<Reply>, Seq<DisplayOp>, Seq<MiscOp>, Seq<Seq<char>>)
    decreases ebc_replies.len() + misc_replies.len(),
{
    let once = await_once_spec(target, ebc_replies, misc_replies);
    if once.0 is Err {
        once
    } else {
        let rec = await_loop_spec(target, once.1, once.2);
        (rec.0, rec.1, rec.2, once.3 + rec.3, once.4 + rec.4, once.5 + rec.5)
    }
}

/// The looping await verb never finishes of its own accord: it ends only
/// when a round fails, so over a scripted remote its result is always an
/// error — against the real bus, where a wait blocks instead of failing, it
/// repeats without terminating.
pub proof fn lemma_await_loop_only_stops_on_error(
    target: AwaitTarget,
    ebc_replies: Seq<Reply>,
    misc_replies: Seq<Reply>,
)
    ensures
        await_loop_spec(target, ebc_replies, misc_replies).0 is Err,
    decreases ebc_replies.len() + misc_replies.len(),
{
    let once = await_once_spec(target, ebc_replies, misc_replies);
    if once.0 is Err {
    } else {
        lemma_await_loop_only_stops_on_error(target, once.1, once.2);
    }
}

/// What the await verb does: one round, or with `repeat` set rounds until a
/// round fails.
pub open spec fn await_cmd_spec(
    target: AwaitTarget,
    repeat: bool,
    ebc_replies: Seq<Reply>,
    misc_replies: Seq<Reply>,
) -> (Result<(), Error>, Seq<Reply>, Seq<Reply>, Seq<DisplayOp>, Seq<MiscOp>, Seq<Seq<char>>) {
    if repeat {
        await_loop_spec(target, ebc_replies, misc_replies)
    } else {
        await_once_spec(target, ebc_replies, misc_replies)
    }
}

/// What one invocation does, given the parsed command and both pending reply
/// scripts: the result, the replies that remain on each service, the
/// operations issued on each, and the lines printed.
pub open spec fn exec_cmd_spec(cmd: Command, ebc_replies: Seq<Reply>, misc_replies: Seq<Reply>) -> (
    Result<(), Error>,
    Seq<Reply>,
    Seq<Reply>,
    Seq<DisplayOp>,
    Seq<MiscOp>,
    Seq<Seq<char>>,
) {
    match cmd {
        Command::Await { target, repeat } => await_cmd_spec(
            target,
            repeat,
            ebc_replies,
            misc_replies,
        ),
        Command::FullRefresh => (
            Result::<(), Error>::Ok(()),
            ebc_replies,
            misc_replies,
            seq![DisplayOp::TriggerGlobalRefresh],
            Seq::<MiscOp>::empty(),
            Seq::<Seq<char>>::empty(),
        ),
        Command::Info => info_cmd_spec(ebc_replies, misc_replies),
        Command::PerformanceMode { action } => {
            let t = performance_mode_cmd_spec(action, ebc_replies);
            (t.0, t.1, misc_replies, t.2, Seq::<MiscOp>::empty(), t.3)
        },
        Command::TravelMode { action } => {
            let t = travel_mode_cmd_spec(action, misc_replies);
            (t.0, ebc_replies, t.1, Seq::<DisplayOp>::empty(), t.2, t.3)
        },
        Command::Waveform { selection } => {
            let t = waveform_cmd_spec(selection, ebc_replies);
            (t.0, t.1, misc_replies, t.2, Seq::<MiscOp>::empty(), t.3)
        },
    }
}

impl Command {
    /// Runs one invocation against the tablet handle, appending every
    /// printed property line to `out`.
    pub fn exec(self, pinenote: &mut Pinenote, out: &mut Vec<String>) -> (r: Result<(), Error>)
        ensures
            r == exec_cmd_spec(self, old(pinenote).ebc.replies@, old(pinenote).misc_replies@).0,
            final(pinenote).ebc.replies@ == exec_cmd_spec(
                self,
                old(pinenote).ebc.replies@,
                old(pinenote).misc_replies@,
            ).1,
            final(pinenote).misc_replies@ == exec_cmd_spec(
                self,
                old(pinenote).ebc.replies@,
                old(pinenote).misc_replies@,
            ).2,
            final(pinenote).ebc.issued@ == old(pinenote).ebc.issued@ + exec_cmd_spec(
                self,
                old(pinenote).ebc.replies@,
                old(pinenote).misc_replies@,
            ).3,
            final(pinenote).misc_issued@ == old(pinenote).misc_issued@ + exec_cmd_spec(
                self,
                old(pinenote).ebc.replies@,
                old(pinenote).misc_replies@,
            ).4,
            final(out).deep_view() == old(out).deep_view() + exec_cmd_spec(
                self,
                old(pinenote).ebc.replies@,
                old(pinenote).misc_replies@,
            ).5,
    {
        let r = match self {
            Command::Await { target, repeat } => Self::await_change(target, repeat, pinenote, out),
            Command::FullRefresh => Self::refresh(pinenote),
            Command::Info => Self::info(pinenote, out),
            Command::PerformanceMode { action } => Self::performance_mode(action, pinenote, out),
            Command::TravelMode { action } => Self::travel_mode(action, pinenote, out),
            Command::Waveform { selection } => Self::waveform(selection, pinenote, out),
        };
        proof {
            let t = exec_cmd_spec(self, old(pinenote).ebc.replies@, old(pinenote).misc_replies@);
            assert(pinenote.ebc.issued@ =~= old(pinenote).ebc.issued@ + t.3);
            assert(pinenote.misc_issued@ =~= old(pinenote).misc_issued@ + t.4);
            assert(out.deep_view() =~~= old(out).deep_view() + t.5);
        }
        r
    }

    /// The performance-mode verb: optionally apply the action, then read and
    /// print the current mode.
    pub fn performance_mode(
        action: Option<OnOffToggleState>,
        pinenote: &mut Pinenote,
        out: &mut Vec<String>,
    ) -> (r: Result<(), Error>)
        ensures
            r == performance_mode_cmd_spec(action, old(pinenote).ebc.replies@).0,
            final(pinenote).ebc.replies@ == performance_mode_cmd_spec(
                action,
                old(pinenote).ebc.replies@,
            ).1,
            final(pinenote).ebc.issued@ == old(pinenote).ebc.issued@ + performance_mode_cmd_spec(
                action,
                old(pinenote).ebc.replies@,
            ).2,
            final(out).deep_view() == old(out).deep_view() + performance_mode_cmd_spec(
                action,
                old(pinenote).ebc.replies@,
            ).3,
            final(pinenote).misc_issued@ == old(pinenote).misc_issued@,
            final(pinenote).misc_replies@ == old(pinenote).misc_replies@,
    {
        if let Some(a) = action {
            match pinenote.ebc.change_performance_mode(a) {
                Ok(_) => {},
                Err(e) => {
                    proof {
                        let t = performance_mode_cmd_spec(action, old(pinenote).ebc.replies@);
                        assert(pinenote.ebc.issued@ =~= old(pinenote).ebc.issued@ + t.2);
                        assert(out.deep_view() =~~= old(out).deep_view() + t.3);
                    }
                    return Err(e);
                },
            }
        }
        let r = pinenote.ebc.print_performance_mode(out);
        proof {
            let t = performance_mode_cmd_spec(action, old(pinenote).ebc.replies@);
            assert(pinenote.ebc.issued@ =~= old(pinenote).ebc.issued@ + t.2);
            assert(out.deep_view() =~~= old(out).deep_view() + t.3);
        }
        r
    }

    /// The travel-mode verb: optionally apply the action, then read and
    /// print the current mode.
    pub fn travel_mode(
        action: Option<OnOffToggleState>,
        pinenote: &mut Pinenote,
        out: &mut Vec<String>,
    ) -> (r: Result<(), Error>)
        ensures
            r == travel_mode_cmd_spec(action, old(pinenote).misc_replies@).0,
            final(pinenote).misc_replies@ == travel_mode_cmd_spec(
                action,
                old(pinenote).misc_replies@,
            ).1,
            final(pinenote).misc_issued@ == old(pinenote).misc_issued@ + travel_mode_cmd_spec(
                action,
                old(pinenote).misc_replies@,
            ).2,
            final(out).deep_view() == old(out).deep_view() + travel_mode_cmd_spec(
                action,
                old(pinenote).misc_replies@,
            ).3,
            final(pinenote).ebc == old(pinenote).ebc,
    {
        if let Some(a) = action {
            match pinenote.change_travel_mode(a) {
                Ok(_) => {},
                Err(e) => {
                    proof {
                        let t = travel_mode_cmd_spec(action, old(pinenote).misc_replies@);
                        assert(pinenote.misc_issued@ =~= old(pinenote).misc_issued@ + t.2);
                        assert(out.deep_view() =~~= old(out).deep_view() + t.3);
                    }
                    return Err(e);
                },
            }
        }
        let r = pinenote.print_travel_mode(out);
        proof {
            let t = travel_mode_cmd_spec(action, old(pinenote).misc_replies@);
            assert(pinenote.misc_issued@ =~= old(pinenote).misc_issued@ + t.2);
            assert(out.deep_view() =~~= old(out).deep_view() + t.3);
        }
        r
    }

    /// The waveform verb: optionally set the selection, then read and print
    /// the current waveform.
    pub fn waveform(
        selection: Option<Waveform>,
        pinenote: &mut Pinenote,
        out: &mut Vec<String>,
    ) -> (r: Result<(), Error>)
        ensures
            r == waveform_cmd_spec(selection, old(pinenote).ebc.replies@).0,
            final(pinenote).ebc.replies@ == waveform_cmd_spec(
                selection,
                old(pinenote).ebc.replies@,
            ).1,
            final(pinenote).ebc.issued@ == old(pinenote).ebc.issued@ + waveform_cmd_spec(
                selection,
                old(pinenote).ebc.replies@,
            ).2,
            final(out).deep_view() == old(out).deep_view() + waveform_cmd_spec(
                selection,
                old(pinenote).ebc.replies@,
            ).3,
            final(pinenote).misc_issued@ == old(pinenote).misc_issued@,
            final(pinenote).misc_replies@ == old(pinenote).misc_replies@,
    {
        if let Some(w) = selection {
            match pinenote.ebc.set_waveform(w) {
                Ok(_) => {},
                Err(e) => {
                    return Err(e);
                },
            }
        }
        let r = pinenote.ebc.print_waveform(out);
        proof {
            let t = waveform_cmd_spec(selection, old(pinenote).ebc.replies@);
            assert(pinenote.ebc.issued@ =~= old(pinenote).ebc.issued@ + t.2);
            assert(out.deep_view() =~~= old(out).deep_view() + t.3);
        }
        r
    }

    /// The info verb: read and print travel mode, waveform and performance
    /// mode, in that fixed order, one line each.
    pub fn info(pinenote: &mut Pinenote, out: &mut Vec<String>) -> (r: Result<(), Error>)
        ensures
            r == info_cmd_spec(old(pinenote).ebc.replies@, old(pinenote).misc_replies@).0,
            final(pinenote).ebc.replies@ == info_cmd_spec(
                old(pinenote).ebc.replies@,
                old(pinenote).misc_replies@,
            ).1,
            final(pinenote).misc_replies@ == info_cmd_spec(
                old(pinenote).ebc.replies@,
                old(pinenote).misc_replies@,
            ).2,
            final(pinenote).ebc.issued@ == old(pinenote).ebc.issued@ + info_cmd_spec(
                old(pinenote).ebc.replies@,
                old(pinenote).misc_replies@,
            ).3,
            final(pinenote).misc_issued@ == old(pinenote).misc_issued@ + info_cmd_spec(
                old(pinenote).ebc.replies@,
                old(pinenote).misc_replies@,
            ).4,
            final(out).deep_view() == old(out).deep_view() + info_cmd_spec(
                old(pinenote).ebc.replies@,
                old(pinenote).misc_replies@,
            ).5,
    {
        let r = match pinenote.print_travel_mode(out) {
            Ok(_) => match pinenote.ebc.print_waveform(out) {
                Ok(_) => pinenote.ebc.print_performance_mode(out),
                Err(e) => Err(e),
            },
            Err(e) => Err(e),
        };
        proof {
            let t = info_cmd_spec(old(pinenote).ebc.replies@, old(pinenote).misc_replies@);
            assert(pinenote.ebc.issued@ =~= old(pinenote).ebc.issued@ + t.3);
            assert(pinenote.misc_issued@ =~= old(pinenote).misc_issued@ + t.4);
            assert(out.deep_view() =~~= old(out).deep_view() + t.5);
        }
        r
    }

    /// The full-refresh verb: trigger the remote refresh; print nothing.
    pub fn refresh(pinenote: &mut Pinenote) -> (r: Result<(), Error>)
        ensures
            final(pinenote).ebc.issued@ == old(pinenote).ebc.issued@.push(
                DisplayOp::TriggerGlobalRefresh,
            ),
            final(pinenote).ebc.replies@ == old(pinenote).ebc.replies@,
            final(pinenote).misc_issued@ == old(pinenote).misc_issued@,
            final(pinenote).misc_replies@ == old(pinenote).misc_replies@,
            r == Result::<(), Error>::Ok(()),
    {
        pinenote.ebc.full_refresh()
    }

    /// The await verb: one wait-then-print round, or with `repeat` set
    /// rounds until a round fails.
    pub fn await_change(
        target: AwaitTarget,
        repeat: bool,
        pinenote: &mut Pinenote,
        out: &mut Vec<String>,
    ) -> (r: Result<(), Error>)
        ensures
            r == await_cmd_spec(
                target,
                repeat,
                old(pinenote).ebc.replies@,
                old(pinenote).misc_replies@,
            ).0,
            final(pinenote).ebc.replies@ == await_cmd_spec(
                target,
                repeat,
                old(pinenote).ebc.replies@,
                old(pinenote).misc_replies@,
            ).1,
            final(pinenote).misc_replies@ == await_cmd_spec(
                target,
                repeat,
                old(pinenote).ebc.replies@,
                old(pinenote).misc_replies@,
            ).2,
            final(pinenote).ebc.issued@ == old(pinenote).ebc.issued@ + await_cmd_spec(
                target,
                repeat,
                old(pinenote).ebc.replies@,
                old(pinenote).misc_replies@,
            ).3,
            final(pinenote).misc_issued@ == old(pinenote).misc_issued@ + await_cmd_spec(
                target,
                repeat,
                old(pinenote).ebc.replies@,
                old(pinenote).misc_replies@,
            ).4,
            final(out).deep_view() == old(out).deep_view() + await_cmd_spec(
                target,
                repeat,
                old(pinenote).ebc.replies@,
                old(pinenote).misc_replies@,
            ).5,
        decreases old(pinenote).ebc.replies@.len() + old(pinenote).misc_replies@.len(),
    {
        let once = Self::await_once(target, pinenote, out);
        match once {
            Err(e) => Err(e),
            Ok(_) => {
                if !repeat {
                    Ok(())
                } else {
                    let r = Self::await_change(target, repeat, pinenote, out);
                    proof {
                        let t = await_cmd_spec(
                            target,
                            repeat,
                            old(pinenote).ebc.replies@,
                            old(pinenote).misc_replies@,
                        );
                        assert(pinenote.ebc.issued@ =~= old(pinenote).ebc.issued@ + t.3);
                        assert(pinenote.misc_issued@ =~= old(pinenote).misc_issued@ + t.4);
                        assert(out.deep_view() =~~= old(out).deep_view() + t.5);
                    }
                    r
                }
            },
        }
    }

    /// One round of the await verb: block for one notification of the
    /// target property, then read and print the refreshed value.
    pub fn await_once(target: AwaitTarget, pinenote: &mut Pinenote, out: &mut Vec<String>) -> (r:
        Result<(), Error>)
        ensures
            r == await_once_spec(
                target,
                old(pinenote).ebc.replies@,
                old(pinenote).misc_replies@,
            ).0,
            final(pinenote).ebc.replies@ == await_once_spec(
                target,
                old(pinenote).ebc.replies@,
                old(pinenote).misc_replies@,
            ).1,
            final(pinenote).misc_replies@ == await_once_spec(
                target,
                old(pinenote).ebc.replies@,
                old(pinenote).misc_replies@,
            ).2,
            final(pinenote).ebc.issued@ == old(pinenote).ebc.issued@ + await_once_spec(
                target,
                old(pinenote).ebc.replies@,
                old(pinenote).misc_replies@,
            ).3,
            final(pinenote).misc_issued@ == old(pinenote).misc_issued@ + await_once_spec(
                target,
                old(pinenote).ebc.replies@,
                old(pinenote).misc_replies@,
            ).4,
            final(out).deep_view() == old(out).deep_view() + await_once_spec(
                target,
                old(pinenote).ebc.replies@,
                old(pinenote).misc_replies@,
            ).5,
    {
        let step = match target {
            AwaitTarget::PerformanceModeChanged => pinenote.ebc.await_performance_mode_change(),
            AwaitTarget::TravelModeChanged => pinenote.await_travel_mode_change(),
            AwaitTarget::WaveformChanged => pinenote.ebc.await_waveform_change(),
        };
        let r = match step {
            Err(e) => Err(e),
            Ok(_) => match target {
                AwaitTarget::PerformanceModeChanged => pinenote.ebc.print_performance_mode(out),
                AwaitTarget::TravelModeChanged => pinenote.print_travel_mode(out),
                AwaitTarget::WaveformChanged => pinenote.ebc.print_waveform(out),
            },
        };
        proof {
            let t = await_once_spec(
                target,
                old(pinenote).ebc.replies@,
                old(pinenote).misc_replies@,
            );
            assert(pinenote.ebc.issued@ =~= old(pinenote).ebc.issued@ + t.3);
            assert(pinenote.misc_issued@ =~= old(pinenote).misc_issued@ + t.4);
            assert(out.deep_view() =~~= old(out).deep_view() + t.5);
        }
        r
    }
}

} // verus!
