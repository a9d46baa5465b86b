//! The tablet handle: the display-controller proxy together with the
//! miscellaneous-settings proxy.
//!
//! Travel mode mirrors the performance-mode surface one-for-one, with one
//! difference on the wire: writing travel mode is a single remote call per
//! direction — an enable method for on and a disable method for off — rather
//! than a paired two-property write.
//!
//! Like the display-controller proxy, the miscellaneous proxy records every
//! bus operation it issues, in order, and consumes scripted replies; the
//! runtime adapter issues the same operations against the real bus.

use vstd::prelude::*;
use vstd::string::StringExecFns;

use crate::ebc::Ebc;
use crate::errors::{DecodeKind, Error};
use crate::remote::{
    notify_reply_spec, read_reply_spec, take_notify, take_value, Reply,
};
use crate::toggle::{
    spec_decode_on_off, spec_negate, spec_on_off_name, OnOffState, OnOffToggleState,
};

verus! {

/// One bus operation of the miscellaneous-settings proxy, as recorded in the
/// order it was issued.
#[derive(Clone, Copy, Debug, PartialEq, Eq, Structural)]
pub enum MiscOp {
    /// Read of the travel-mode property.
    GetTravelMode,
    /// The travel-mode enable method.
    EnableTravelMode,
    /// The travel-mode disable method.
    DisableTravelMode,
    /// Blocking wait for one travel-mode change notification.
    AwaitTravelModeChanged,
}

/// The tablet handle: one display-controller proxy and one
/// miscellaneous-settings proxy, sharing a lifetime but each recording its
/// own operations.
pub struct Pinenote {
    /// The display-controller proxy.
    pub ebc: Ebc,
    /// Every miscellaneous-service operation issued so far, in order.
    pub misc_issued: Vec<MiscOp>,
    /// The replies the miscellaneous service has yet to give, front first.
    pub misc_replies: Vec<Reply>,
}

/// The single write that sets travel mode: the enable method for on, the
/// disable method for off.
pub open spec fn travel_mode_write(state: OnOffState) -> MiscOp {
    match state {
        OnOffState::On => MiscOp::EnableTravelMode,
        OnOffState::Off => MiscOp::DisableTravelMode,
    }
}

/// What a travel-mode read returns, given the pending replies, and the
/// replies that remain: the front value decoded as a binary state, a decode
/// error for a value outside 0 and 1, or a remote-call error when the
/// service gives no value.
pub open spec fn get_travel_mode_spec(replies: Seq<Reply>) -> (Result<OnOffState, Error>, Seq<
    Reply,
>) {
    let (v, rest) = read_reply_spec(replies);
    match v {
        Some(n) => (
            match spec_decode_on_off(n) {
                Some(s) => Result::<OnOffState, Error>::Ok(s),
                None => Result::<OnOffState, Error>::Err(
                    Error::Decode(DecodeKind::TravelMode, n),
                ),
            },
            rest,
        ),
        None => (Result::<OnOffState, Error>::Err(Error::RemoteCall), rest),
    }
}

/// What a change of travel mode does, given the request and the pending
/// replies: the result, the replies that remain, and the operations issued.
/// An explicit request issues no read and exactly the one write of that
/// state; a toggle request issues one read first and, when the read decodes,
/// the write of the negated state.
pub open spec fn change_travel_mode_spec(request: OnOffToggleState, replies: Seq<Reply>) -> (
    Result<(), Error>,
    Seq<Reply>,
    Seq<MiscOp>,
) {
    match request {
        OnOffToggleState::On => (
            Result::<(), Error>::Ok(()),
            replies,
            seq![travel_mode_write(OnOffState::On)],
        ),
        OnOffToggleState::Off => (
            Result::<(), Error>::Ok(()),
            replies,
            seq![travel_mode_write(OnOffState::Off)],
        ),
        OnOffToggleState::Toggle => {
            let (r, rest) = get_travel_mode_spec(replies);
            match r {
                Ok(s) => (
                    Result::<(), Error>::Ok(()),
                    rest,
                    seq![MiscOp::GetTravelMode, travel_mode_write(spec_negate(s))],
                ),
                Err(e) => (Result::<(), Error>::Err(e), rest, seq![MiscOp::GetTravelMode]),
            }
        },
    }
}

/// The line printed for a travel-mode value.
pub open spec fn travel_mode_line(s: OnOffState) -> Seq<char> {
    "travel-mode: "@ + spec_on_off_name(s)
}

/// Builds the line printed for a travel-mode value.
pub fn travel_mode_line_string(s: OnOffState) -> (r: String)
    ensures
        r@ == travel_mode_line(s),
{
    let mut line = String::from_str("travel-mode: ");
    let name = s.name();
    line.append(name.as_str());
    line
}

impl Pinenote {
    /// A handle over scripted remotes: one reply script for the display
    /// controller and one for the miscellaneous service. No operation has
    /// been issued yet on either.
    pub fn new(ebc_replies: Vec<Reply>, misc_replies: Vec<Reply>) -> (r: Pinenote)
        ensures
            r.ebc.issued@ == Seq::<crate::ebc::DisplayOp>::empty(),
            r.ebc.replies@ == ebc_replies@,
            r.misc_issued@ == Seq::<MiscOp>::empty(),
            r.misc_replies@ == misc_replies@,
    {
        Pinenote { ebc: Ebc::new(ebc_replies), misc_issued: Vec::new(), misc_replies }
    }

    /// The display-controller proxy of this handle.
    pub fn ebc(&self) -> (r: &Ebc)
        ensures
            *r == self.ebc,
    {
        &self.ebc
    }

    /// Writes travel mode: one remote call, the enable method for on or the
    /// disable method for off. No read is issued.
    pub fn set_travel_mode(&mut self, state: OnOffState) -> (r: Result<(), Error>)
        ensures
            final(self).misc_issued@ == old(self).misc_issued@.push(travel_mode_write(state)),
            final(self).misc_replies@ == old(self).misc_replies@,
            final(self).ebc == old(self).ebc,
            r == Result::<(), Error>::Ok(()),
    {
        match state {
            OnOffState::On => self.misc_issued.push(MiscOp::EnableTravelMode),
            OnOffState::Off => self.misc_issued.push(MiscOp::DisableTravelMode),
        }
        Ok(())
    }

    /// Reads the travel-mode property and decodes it: 1 is on, 0 is off,
    /// and any other value is a decode error carrying that value.
    pub fn get_travel_mode(&mut self) -> (r: Result<OnOffState, Error>)
        ensures
            final(self).misc_issued@ == old(self).misc_issued@.push(MiscOp::GetTravelMode),
            r == get_travel_mode_spec(old(self).misc_replies@).0,
            final(self).misc_replies@ == get_travel_mode_spec(old(self).misc_replies@).1,
            final(self).ebc == old(self).ebc,
    {
        self.misc_issued.push(MiscOp::GetTravelMode);
        match take_value(&mut self.misc_replies) {
            Some(n) => match OnOffState::try_from(n) {
                Ok(s) => Ok(s),
                Err(v) => Err(Error::Decode(DecodeKind::TravelMode, v)),
            },
            None => Err(Error::RemoteCall),
        }
    }

    /// Applies a tri-state request to travel mode. A toggle request first
    /// reads the current mode, negates it and writes the result — read then
    /// write, with no compare-and-swap, so inherently racy against concurrent
    /// writers. An explicit request is written directly, with no read.
    pub fn change_travel_mode(&mut self, request: OnOffToggleState) -> (r: Result<(), Error>)
        ensures
            r == change_travel_mode_spec(request, old(self).misc_replies@).0,
            final(self).misc_replies@ == change_travel_mode_spec(
                request,
                old(self).misc_replies@,
            ).1,
            final(self).misc_issued@ == old(self).misc_issued@ + change_travel_mode_spec(
                request,
                old(self).misc_replies@,
            ).2,
            final(self).ebc == old(self).ebc,
    {
        match request {
            OnOffToggleState::Toggle => {
                match self.get_travel_mode() {
                    Ok(current) => {
                        let r = self.set_travel_mode(current.negate());
                        proof {
                            assert(self.misc_issued@ =~= old(self).misc_issued@
                                + change_travel_mode_spec(request, old(self).misc_replies@).2);
                        }
                        r
                    },
                    Err(e) => {
                        proof {
                            assert(self.misc_issued@ =~= old(self).misc_issued@ + seq![
                                MiscOp::GetTravelMode,
                            ]);
                        }
                        Err(e)
                    },
                }
            },
            other => {
                match OnOffState::try_from_request(other) {
                    Ok(state) => {
                        let r = self.set_travel_mode(state);
                        proof {
                            assert(self.misc_issued@ =~= old(self).misc_issued@
                                + change_travel_mode_spec(request, old(self).misc_replies@).2);
                        }
                        r
                    },
                    Err(_) => unreached(),
                }
            },
        }
    }

    /// Reads travel mode and appends its line to the output.
    pub fn print_travel_mode(&mut self, out: &mut Vec<String>) -> (r: Result<(), Error>)
        ensures
            final(self).misc_issued@ == old(self).misc_issued@.push(MiscOp::GetTravelMode),
            final(self).ebc == old(self).ebc,
            ({
                let (res, rest) = get_travel_mode_spec(old(self).misc_replies@);
                final(self).misc_replies@ == rest && match res {
                    Ok(s) => r == Result::<(), Error>::Ok(()) && final(out).deep_view() == old(out).deep_view().push(
                        travel_mode_line(s),
                    ),
                    Err(e) => r == Result::<(), Error>::Err(e) && final(out).deep_view() == old(
                        out,
                    ).deep_view(),
                }
            }),
    {
        match self.get_travel_mode() {
            Ok(s) => {
                let line = travel_mode_line_string(s);
                out.push(line);
                proof {
                    assert(out.deep_view() =~~= old(out).deep_view().push(travel_mode_line(s)));
                }
                Ok(())
            },
            Err(e) => Err(e),
        }
    }

    /// Blocks until one travel-mode change notification arrives. The new
    /// value is not re-read here; the caller queries separately.
    pub fn await_travel_mode_change(&mut self) -> (r: Result<(), Error>)
        ensures
            final(self).misc_issued@ == old(self).misc_issued@.push(MiscOp::AwaitTravelModeChanged),
            r == (if notify_reply_spec(old(self).misc_replies@).0 {
                Result::<(), Error>::Ok(())
            } else {
                Result::<(), Error>::Err(Error::RemoteCall)
            }),
            final(self).misc_replies@ == notify_reply_spec(old(self).misc_replies@).1,
            final(self).ebc == old(self).ebc,
    {
        self.misc_issued.push(MiscOp::AwaitTravelModeChanged);
        if take_notify(&mut self.misc_replies) {
            Ok(())
        } else {
            Err(Error::RemoteCall)
        }
    }
}

/// The remote calls a travel-mode change issues, stated plainly: an explicit
/// on or off request issues zero reads and exactly the one write of the given
/// state; a toggle request whose read decodes issues exactly one read
/// followed by the write of the negated state.
pub proof fn lemma_change_travel_mode_calls(request: OnOffToggleState, replies: Seq<Reply>)
    ensures
        request is On ==> change_travel_mode_spec(request, replies).2 == seq![
            travel_mode_write(OnOffState::On),
        ],
        request is Off ==> change_travel_mode_spec(request, replies).2 == seq![
            travel_mode_write(OnOffState::Off),
        ],
        request is Toggle ==> (get_travel_mode_spec(replies).0 matches Ok(s)
            ==> change_travel_mode_spec(request, replies).2 == seq![
            MiscOp::GetTravelMode,
            travel_mode_write(spec_negate(s)),
        ]),
{
}

} // verus!
