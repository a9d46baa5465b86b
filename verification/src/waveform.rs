//! The waveform selector: a closed set of eight named e-ink refresh
//! algorithms, each bound to a fixed small positive integer code (1 to 8).
//!
//! Codes outside 1 to 8 are not valid waveform values and are rejected where
//! an integer is received from the remote service.

use vstd::prelude::*;
use vstd::string::StringExecFns;

use crate::errors::{DecodeKind, Error};

verus! {

/// A named e-ink refresh algorithm selector.
#[derive(Clone, Copy, Debug, PartialEq, Eq, Structural)]
pub enum Waveform {
    A2,
    DU,
    DU4,
    GC16,
    GCC16,
    GL16,
    GLR16,
    GLD16,
}

/// The fixed wire code of a waveform, in 1 to 8.
pub open spec fn spec_waveform_code(w: Waveform) -> u8 {
    match w {
        Waveform::A2 => 1u8,
        Waveform::DU => 2u8,
        Waveform::DU4 => 3u8,
        Waveform::GC16 => 4u8,
        Waveform::GCC16 => 5u8,
        Waveform::GL16 => 6u8,
        Waveform::GLR16 => 7u8,
        Waveform::GLD16 => 8u8,
    }
}

/// The waveform bound to a wire code, or `None` for a code outside 1 to 8.
pub open spec fn spec_decode_waveform(v: u8) -> Option<Waveform> {
    if v == 1 {
        Some(Waveform::A2)
    } else if v == 2 {
        Some(Waveform::DU)
    } else if v == 3 {
        Some(Waveform::DU4)
    } else if v == 4 {
        Some(Waveform::GC16)
    } else if v == 5 {
        Some(Waveform::GCC16)
    } else if v == 6 {
        Some(Waveform::GL16)
    } else if v == 7 {
        Some(Waveform::GLR16)
    } else if v == 8 {
        Some(Waveform::GLD16)
    } else {
        None
    }
}

/// The lowercase name of a waveform, as printed after the property name.
pub open spec fn spec_waveform_name(w: Waveform) -> Seq<char> {
    match w {
        Waveform::A2 => "a2"@,
        Waveform::DU => "du"@,
        Waveform::DU4 => "du4"@,
        Waveform::GC16 => "gc16"@,
        Waveform::GCC16 => "gcc16"@,
        Waveform::GL16 => "gl16"@,
        Waveform::GLR16 => "glr16"@,
        Waveform::GLD16 => "gld16"@,
    }
}

impl Waveform {
    /// The wire code of this waveform.
    pub fn code(self) -> (r: u8)
        ensures
            r == spec_waveform_code(self),
    {
        match self {
            Waveform::A2 => 1u8,
            Waveform::DU => 2u8,
            Waveform::DU4 => 3u8,
            Waveform::GC16 => 4u8,
            Waveform::GCC16 => 5u8,
            Waveform::GL16 => 6u8,
            Waveform::GLR16 => 7u8,
            Waveform::GLD16 => 8u8,
        }
    }

    /// Decodes a wire code into a waveform. A code outside 1 to 8 is a
    /// decode error carrying that code.
    pub fn try_from(value: u8) -> (r: Result<Waveform, Error>)
        ensures
            r == match spec_decode_waveform(value) {
                Some(w) => Result::<Waveform, Error>::Ok(w),
                None => Result::<Waveform, Error>::Err(Error::Decode(DecodeKind::Waveform, value)),
            },
    {
        match value {
            1u8 => Ok(Waveform::A2),
            2u8 => Ok(Waveform::DU),
            3u8 => Ok(Waveform::DU4),
            4u8 => Ok(Waveform::GC16),
            5u8 => Ok(Waveform::GCC16),
            6u8 => Ok(Waveform::GL16),
            7u8 => Ok(Waveform::GLR16),
            8u8 => Ok(Waveform::GLD16),
            v => Err(Error::Decode(DecodeKind::Waveform, v)),
        }
    }

    /// The lowercase name of this waveform.
    pub fn name(self) -> (r: String)
        ensures
            r@ == spec_waveform_name(self),
    {
        match self {
            Waveform::A2 => String::from_str("a2"),
            Waveform::DU => String::from_str("du"),
            Waveform::DU4 => String::from_str("du4"),
            Waveform::GC16 => String::from_str("gc16"),
            Waveform::GCC16 => String::from_str("gcc16"),
            Waveform::GL16 => String::from_str("gl16"),
            Waveform::GLR16 => String::from_str("glr16"),
            Waveform::GLD16 => String::from_str("gld16"),
        }
    }
}

/// Decoding and encoding of waveform codes are mutually inverse: a wire code
/// decodes successfully exactly when it lies in 1 to 8, in which case
/// re-encoding the decoded waveform yields the code again; and every waveform
/// decodes back from its own code.
pub proof fn lemma_waveform_round_trip(v: u8, w: Waveform)
    ensures
        spec_decode_waveform(v) is Some <==> 1 <= v <= 8,
        spec_decode_waveform(v) matches Some(d) ==> spec_waveform_code(d) == v,
        spec_decode_waveform(spec_waveform_code(w)) == Some(w),
{
}

} // verus!
