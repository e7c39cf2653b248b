//! The latency reply: renders the shard's round-trip measurement, in
//! milliseconds with two decimal places, or a sentinel when none is
//! available yet.
use vstd::prelude::*;
use vstd::string::StringExecFns;
use crate::text::{dec_str, push_decimal, push_two_digits, two_digit_str};

verus! {

/// The latency figure as text: milliseconds with exactly two decimal places
/// when a measurement (in microseconds) is available, `???` otherwise.
pub open spec fn latency_label(latency_micros: Option<u64>) -> Seq<char> {
    match latency_micros {
        Some(us) => dec_str((us / 1000) as nat) + "."@ + two_digit_str(((us % 1000) / 10) as nat),
        None => "???"@,
    }
}

/// The whole reply owed for a latency check.
pub open spec fn ping_text(latency_micros: Option<u64>) -> Seq<char> {
    "Pong! 🏓 latency "@ + latency_label(latency_micros) + "ms"@
}

/// Builds the public reply for the latency check. The measurement is the
/// shard's current round-trip time in microseconds; `None` means none has
/// been taken yet (for example right after connecting).
pub fn ping(latency_micros: Option<u64>) -> (r: String)
    ensures
        r@ == ping_text(latency_micros),
{
    let mut m = String::from_str("Pong! 🏓 latency ");
    match latency_micros {
        Some(us) => {
            push_decimal(&mut m, us / 1000);
            m.append(".");
            proof {
                assert((us % 1000) / 10 < 100) by (nonlinear_arith);
            }
            push_two_digits(&mut m, (us % 1000) / 10);
        },
        None => {
            m.append("???");
        },
    }
    m.append("ms");
    proof {
        assert(m@ =~= ping_text(latency_micros));
    }
    m
}

} // verus!
