//! The model of a remote service's side of the bus.
//!
//! The remote services are the sole source of truth for every property this
//! controller touches, so the library models each service as a finite script
//! of replies: a `Value` answers a property read, and a `Notify` is one
//! change notification delivered to a blocking wait. A proxy consumes the
//! script front to back; an operation that finds no fitting reply at the
//! front fails as a remote-call error. The runtime adapter obtains the same
//! replies from the real bus instead.

use vstd::prelude::*;

verus! {

/// One reply of a scripted remote service.
#[derive(Clone, Copy, Debug, PartialEq, Eq, Structural)]
pub enum Reply {
    /// The integer answer to a property read.
    Value(u8),
    /// One change notification, consumed by a blocking wait.
    Notify,
}

/// Whether the next scripted reply answers a property read.
pub open spec fn next_is_value(replies: Seq<Reply>) -> bool {
    replies.len() > 0 && replies[0] is Value
}

/// The integer of the next scripted reply.
pub open spec fn next_value(replies: Seq<Reply>) -> u8
    recommends
        next_is_value(replies),
{
    replies[0]->Value_0
}

/// Whether the next scripted reply is a change notification.
pub open spec fn next_is_notify(replies: Seq<Reply>) -> bool {
    replies.len() > 0 && replies[0] is Notify
}

/// What a property read obtains from the script: the front value, if the
/// front reply is one, and the remaining script.
pub open spec fn read_reply_spec(replies: Seq<Reply>) -> (Option<u8>, Seq<Reply>) {
    if next_is_value(replies) {
        (Some(next_value(replies)), replies.drop_first())
    } else {
        (None, replies)
    }
}

/// What a blocking wait obtains from the script: whether a notification was
/// at the front, and the remaining script.
pub open spec fn notify_reply_spec(replies: Seq<Reply>) -> (bool, Seq<Reply>) {
    if next_is_notify(replies) {
        (true, replies.drop_first())
    } else {
        (false, replies)
    }
}

/// Consumes the front reply if it answers a read, returning its integer.
pub fn take_value(replies: &mut Vec<Reply>) -> (r: Option<u8>)
    ensures
        r == read_reply_spec(old(replies)@).0,
        final(replies)@ == read_reply_spec(old(replies)@).1,
{
    if replies.len() > 0 {
        match replies[0] {
            Reply::Value(v) => {
                replies.remove(0);
                proof {
                    assert(replies@ =~= old(replies)@.drop_first());
                }
                Some(v)
            },
            Reply::Notify => None,
        }
    } else {
        None
    }
}

/// Consumes the front reply if it is a change notification.
pub fn take_notify(replies: &mut Vec<Reply>) -> (r: bool)
    ensures
        r == notify_reply_spec(old(replies)@).0,
        final(replies)@ == notify_reply_spec(old(replies)@).1,
{
    if replies.len() > 0 {
        match replies[0] {
            Reply::Notify => {
                replies.remove(0);
                proof {
                    assert(replies@ =~= old(replies)@.drop_first());
                }
                true
            },
            Reply::Value(_) => false,
        }
    } else {
        false
    }
}

} // verus!
