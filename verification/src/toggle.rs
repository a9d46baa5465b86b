//! Binary toggle state and the tri-state toggle request.
//!
//! A property's current or desired value is a binary toggle state, `On` or
//! `Off`. The value accepted from a user is a tri-state request, `On`, `Off`
//! or `Toggle`; `Toggle` is not a storable state and is resolved at call time
//! by reading the current value and negating it. Converting `Toggle` directly
//! into a binary state is an error.

use vstd::prelude::*;
use vstd::string::StringExecFns;

use crate::errors::Error;

verus! {

/// A binary toggle state: exactly one of `On` and `Off`.
#[derive(Clone, Copy, Debug, PartialEq, Eq, Structural)]
pub enum OnOffState {
    On,
    Off,
}

/// A tri-state toggle request as accepted from a user. `Toggle` must be
/// resolved against the current remote value before it can be written.
#[derive(Clone, Copy, Debug, PartialEq, Eq, Structural)]
pub enum OnOffToggleState {
    On,
    Off,
    Toggle,
}

/// Logical negation of a binary toggle state.
pub open spec fn spec_negate(s: OnOffState) -> OnOffState {
    match s {
        OnOffState::On => OnOffState::Off,
        OnOffState::Off => OnOffState::On,
    }
}

/// The wire decoding of a binary toggle state: 1 is `On`, 0 is `Off`, and
/// every other integer is invalid.
pub open spec fn spec_decode_on_off(v: u8) -> Option<OnOffState> {
    if v == 1 {
        Some(OnOffState::On)
    } else if v == 0 {
        Some(OnOffState::Off)
    } else {
        None
    }
}

/// The wire encoding of a binary toggle state: `On` is 1, `Off` is 0.
pub open spec fn spec_encode_on_off(s: OnOffState) -> u8 {
    match s {
        OnOffState::On => 1u8,
        OnOffState::Off => 0u8,
    }
}

impl OnOffState {
    /// The other of the two states.
    pub fn negate(self) -> (r: OnOffState)
        ensures
            r == spec_negate(self),
    {
        match self {
            OnOffState::On => OnOffState::Off,
            OnOffState::Off => OnOffState::On,
        }
    }

    /// `On` as `true`, `Off` as `false`.
    pub fn to_bool(self) -> (r: bool)
        ensures
            r == (self is On),
    {
        match self {
            OnOffState::On => true,
            OnOffState::Off => false,
        }
    }

    /// `true` as `On`, `false` as `Off`.
    pub fn from_bool(v: bool) -> (r: OnOffState)
        ensures
            (r is On) == v,
    {
        if v {
            OnOffState::On
        } else {
            OnOffState::Off
        }
    }

    /// The wire encoding of this state.
    pub fn encode(self) -> (r: u8)
        ensures
            r == spec_encode_on_off(self),
    {
        match self {
            OnOffState::On => 1u8,
            OnOffState::Off => 0u8,
        }
    }

    /// Decodes a wire integer: 1 is `On`, 0 is `Off`, and any other value is
    /// a decode error carrying that value.
    pub fn try_from(value: u8) -> (r: Result<OnOffState, u8>)
        ensures
            r == match spec_decode_on_off(value) {
                Some(s) => Result::<OnOffState, u8>::Ok(s),
                None => Result::<OnOffState, u8>::Err(value),
            },
    {
        if value == 1 {
            Ok(OnOffState::On)
        } else if value == 0 {
            Ok(OnOffState::Off)
        } else {
            Err(value)
        }
    }

    /// Resolves a tri-state request into a binary state. `Toggle` carries no
    /// binary value and is refused with `Error::InvalidConversion`.
    pub fn try_from_request(request: OnOffToggleState) -> (r: Result<OnOffState, Error>)
        ensures
            r == match request {
                OnOffToggleState::On => Result::<OnOffState, Error>::Ok(OnOffState::On),
                OnOffToggleState::Off => Result::<OnOffState, Error>::Ok(OnOffState::Off),
                OnOffToggleState::Toggle => Result::<OnOffState, Error>::Err(
                    Error::InvalidConversion,
                ),
            },
    {
        match request {
            OnOffToggleState::On => Ok(OnOffState::On),
            OnOffToggleState::Off => Ok(OnOffState::Off),
            OnOffToggleState::Toggle => Err(Error::InvalidConversion),
        }
    }

    /// The lowercase name of the state, as printed after a property name.
    pub fn name(self) -> (r: String)
        ensures
            r@ == spec_on_off_name(self),
    {
        match self {
            OnOffState::On => String::from_str("on"),
            OnOffState::Off => String::from_str("off"),
        }
    }
}

/// The lowercase name of a binary toggle state.
pub open spec fn spec_on_off_name(s: OnOffState) -> Seq<char> {
    match s {
        OnOffState::On => "on"@,
        OnOffState::Off => "off"@,
    }
}

impl OnOffToggleState {
    /// Embeds a binary state into the tri-state request type.
    pub fn from_state(s: OnOffState) -> (r: OnOffToggleState)
        ensures
            r == match s {
                OnOffState::On => OnOffToggleState::On,
                OnOffState::Off => OnOffToggleState::Off,
            },
    {
        match s {
            OnOffState::On => OnOffToggleState::On,
            OnOffState::Off => OnOffToggleState::Off,
        }
    }
}

/// Negation is an involution: negating any binary toggle state twice yields
/// the state itself.
pub proof fn lemma_negate_involution(s: OnOffState)
    ensures
        spec_negate(spec_negate(s)) == s,
{
}

/// Encoding and decoding of binary toggle states are mutually inverse: every
/// state decodes back from its own code, and a wire integer decodes
/// successfully exactly when it is 0 or 1, in which case re-encoding the
/// decoded state yields the integer again.
pub proof fn lemma_on_off_round_trip(s: OnOffState, v: u8)
    ensures
        spec_decode_on_off(spec_encode_on_off(s)) == Some(s),
        spec_decode_on_off(v) is Some <==> v == 0 || v == 1,
        spec_decode_on_off(v) matches Some(t) ==> spec_encode_on_off(t) == v,
{
}

} // verus!
