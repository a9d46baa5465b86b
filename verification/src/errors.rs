//! Error kinds of the controller and their user-visible messages.
//!
//! Every error is fatal: it surfaces immediately to the top level, where the
//! process prints `Error: <message>` and exits. `Decode` carries the raw wire
//! integer that fell outside the expected closed set, and its message quotes
//! that integer in decimal.

use vstd::prelude::*;
use vstd::string::StringExecFns;

verus! {

/// Which remote property a decode error came from; the three properties quote
/// different names in their messages.
#[derive(Clone, Copy, Debug, PartialEq, Eq, Structural)]
pub enum DecodeKind {
    PerformanceMode,
    Waveform,
    TravelMode,
}

/// An error of the controller.
///
/// `RemoteCall` stands for a remote call that the service did not answer; in
/// the runtime adapter the bus's own message is surfaced instead. `Decode`
/// carries the raw integer the remote returned outside the expected set.
/// `InvalidConversion` is the attempt to convert the `Toggle` request
/// directly into a binary state without resolving it first.
#[derive(Clone, Copy, Debug, PartialEq, Eq, Structural)]
pub enum Error {
    RemoteCall,
    Decode(DecodeKind, u8),
    InvalidConversion,
}

/// The decimal digit character for `d`, for `d` under 10.
pub open spec fn digit_char(d: nat) -> char {
    if d == 0 {
        '0'
    } else if d == 1 {
        '1'
    } else if d == 2 {
        '2'
    } else if d == 3 {
        '3'
    } else if d == 4 {
        '4'
    } else if d == 5 {
        '5'
    } else if d == 6 {
        '6'
    } else if d == 7 {
        '7'
    } else if d == 8 {
        '8'
    } else {
        '9'
    }
}

/// The decimal rendering of a byte, without leading zeros.
pub open spec fn spec_dec_u8(n: u8) -> Seq<char> {
    if n < 10 {
        seq![digit_char(n as nat)]
    } else if n < 100 {
        seq![digit_char(n as nat / 10), digit_char(n as nat % 10)]
    } else {
        seq![
            digit_char(n as nat / 100),
            digit_char((n as nat / 10) % 10),
            digit_char(n as nat % 10),
        ]
    }
}

/// The one-character string for a decimal digit.
fn digit_str(d: u8) -> (r: &'static str)
    requires
        d < 10,
    ensures
        r@ == seq![digit_char(d as nat)],
{
    if d == 0 {
        proof {
            reveal_strlit("0");
            assert("0"@ =~= seq![digit_char(0)]);
        }
        "0"
    } else if d == 1 {
        proof {
            reveal_strlit("1");
            assert("1"@ =~= seq![digit_char(1)]);
        }
        "1"
    } else if d == 2 {
        proof {
            reveal_strlit("2");
            assert("2"@ =~= seq![digit_char(2)]);
        }
        "2"
    } else if d == 3 {
        proof {
            reveal_strlit("3");
            assert("3"@ =~= seq![digit_char(3)]);
        }
        "3"
    } else if d == 4 {
        proof {
            reveal_strlit("4");
            assert("4"@ =~= seq![digit_char(4)]);
        }
        "4"
    } else if d == 5 {
        proof {
            reveal_strlit("5");
            assert("5"@ =~= seq![digit_char(5)]);
        }
        "5"
    } else if d == 6 {
        proof {
            reveal_strlit("6");
            assert("6"@ =~= seq![digit_char(6)]);
        }
        "6"
    } else if d == 7 {
        proof {
            reveal_strlit("7");
            assert("7"@ =~= seq![digit_char(7)]);
        }
        "7"
    } else if d == 8 {
        proof {
            reveal_strlit("8");
            assert("8"@ =~= seq![digit_char(8)]);
        }
        "8"
    } else {
        proof {
            reveal_strlit("9");
            assert("9"@ =~= seq![digit_char(9)]);
        }
        "9"
    }
}

/// Renders a byte in decimal, without leading zeros.
pub fn dec_u8_string(n: u8) -> (r: String)
    ensures
        r@ == spec_dec_u8(n),
{
    let mut s = String::new();
    if n >= 100 {
        s.append(digit_str(n / 100));
    }
    if n >= 10 {
        s.append(digit_str((n / 10) % 10));
    }
    s.append(digit_str(n % 10));
    proof {
        assert(s@ =~= spec_dec_u8(n));
    }
    s
}

/// The message prefix of a decode error, up to the quoted value.
pub open spec fn spec_decode_prefix(kind: DecodeKind) -> Seq<char> {
    match kind {
        DecodeKind::PerformanceMode => "Unable to parse performance mode '"@,
        DecodeKind::Waveform => "Unable to parse waveform '"@,
        DecodeKind::TravelMode => "Unable to parse travel mode '"@,
    }
}

/// The user-visible message of an error.
pub open spec fn spec_message(e: Error) -> Seq<char> {
    match e {
        Error::RemoteCall => "remote call failed"@,
        Error::Decode(kind, v) => spec_decode_prefix(kind) + spec_dec_u8(v) + "'"@,
        Error::InvalidConversion => "Attempting to convert 'Toggle' value to OnOffState"@,
    }
}

impl Error {
    /// The message printed for this error, after the `Error: ` prefix.
    pub fn message(&self) -> (r: String)
        ensures
            r@ == spec_message(*self),
    {
        match self {
            Error::RemoteCall => String::from_str("remote call failed"),
            Error::Decode(kind, v) => {
                let mut s = match kind {
                    DecodeKind::PerformanceMode => String::from_str(
                        "Unable to parse performance mode '",
                    ),
                    DecodeKind::Waveform => String::from_str("Unable to parse waveform '"),
                    DecodeKind::TravelMode => String::from_str("Unable to parse travel mode '"),
                };
                let digits = dec_u8_string(*v);
                s.append(digits.as_str());
                s.append("'");
                proof {
                    assert(s@ =~= spec_message(*self));
                }
                s
            },
            Error::InvalidConversion => String::from_str(
                "Attempting to convert 'Toggle' value to OnOffState",
            ),
        }
    }
}

} // verus!
