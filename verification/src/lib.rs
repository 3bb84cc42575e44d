//! Parsing and handling of human readable duration strings such as `"10s"`,
//! `"8h5m10s"` or `"120m"`. A duration is stored as a whole number of seconds
//! and can be read back truncated to seconds, minutes, hours or days.
//!
//! A string is scanned left to right for tokens: a run of decimal digits
//! immediately followed by a unit letter (`s`, `m`, `h` or `d`, in either
//! case). All tokens are summed; a string without any token is rejected, and
//! so is one whose total does not fit an unsigned 64 bit seconds count.

use vstd::prelude::*;
use vstd::string::StrSliceExecFns;

pub mod chrono_delta;
pub mod errors;
pub mod parsing;
pub mod traits;

use crate::chrono_delta::{delta_from_seconds, MAX_DELTA_SECONDS};
use crate::errors::ParseHumanReadableDurationError;
use crate::parsing::{
    digit_val, duration_total, is_digit_char, is_unit_char, lemma_tokens_total_cons, run_state,
    scan_tokens, spec_tokens, tokens_total, unit_multiplier,
};
use crate::traits::{AsDays, AsDuration, AsHours, AsMinutes, AsSeconds};

verus! {

/// A data structure for parsing and managing a human readable duration
/// representation.
#[derive(Debug)]
pub struct HumanReadableDuration {
    time_in_seconds: u64,
}

impl View for HumanReadableDuration {
    type V = u64;

    /// The duration's length as a whole number of seconds.
    closed spec fn view(&self) -> u64 {
        self.time_in_seconds
    }
}

/// The numeric value of the decimal digit `c`, or `None` for any other
/// character.
fn digit_of(c: char) -> (r: Option<u64>)
    ensures
        r is Some <==> is_digit_char(c),
        r matches Some(d) ==> d == digit_val(c),
{
    let code = c as u32;
    if 48 <= code && code <= 57 {
        Some((code - 48) as u64)
    } else {
        None
    }
}

/// The number of seconds one step of the unit named by `c` lasts, or `None`
/// when `c` names no supported unit.
fn unit_multiplier_of(c: char) -> (r: Option<u64>)
    ensures
        r is Some <==> is_unit_char(c),
        r matches Some(m) ==> m == unit_multiplier(c),
{
    if c == 's' || c == 'S' {
        Some(1)
    } else if c == 'm' || c == 'M' {
        Some(60)
    } else if c == 'h' || c == 'H' {
        Some(3600)
    } else if c == 'd' || c == 'D' {
        Some(86400)
    } else {
        None
    }
}

impl HumanReadableDuration {
    /// Parses a string `value` to return a value of the
    /// [`HumanReadableDuration`] type.
    ///
    /// The string is scanned left to right for (digits, unit letter) tokens
    /// and the token contributions are summed. Parsing succeeds exactly when
    /// at least one token was found and the sum fits an unsigned 64 bit
    /// seconds count; otherwise the error is returned.
    pub fn from_str(value: &str) -> (r: Result<HumanReadableDuration, ParseHumanReadableDurationError>)
        ensures
            r is Ok <==> spec_tokens(value@).len() > 0 && duration_total(value@) <= u64::MAX,
            r matches Ok(d) ==> d@ == duration_total(value@),
    {
        let n = value.unicode_len();
        let mut i: usize = 0;
        let mut total: u64 = 0;
        let mut found: bool = false;
        let mut in_run: bool = false;
        let mut run_overflowed: bool = false;
        let mut run_val: u64 = 0;
        let ghost mut run_true: nat = 0nat;
        let ghost mut done_count: nat = 0nat;

        while i < n
            invariant
                n == value@.len(),
                i <= n,
                in_run && run_overflowed ==> run_true > u64::MAX,
                in_run && !run_overflowed ==> run_true == run_val,
                duration_total(value@) == total + tokens_total(
                    scan_tokens(value@, i as int, run_state(in_run, run_true)),
                ),
                spec_tokens(value@).len() == done_count + scan_tokens(
                    value@,
                    i as int,
                    run_state(in_run, run_true),
                ).len(),
                found <==> done_count > 0,
            decreases n - i,
        {
            let c = value.get_char(i);
            if in_run {
                if let Some(d) = digit_of(c) {
                    if !run_overflowed {
                        let extended = match run_val.checked_mul(10) {
                            Some(m) => m.checked_add(d),
                            None => None,
                        };
                        match extended {
                            Some(v2) => {
                                run_val = v2;
                            },
                            None => {
                                run_overflowed = true;
                            },
                        }
                    }
                    proof {
                        run_true = run_true * 10 + digit_val(c);
                    }
                } else if let Some(m) = unit_multiplier_of(c) {
                    proof {
                        lemma_tokens_total_cons(
                            (run_true, c),
                            scan_tokens(value@, i as int + 1, run_state(false, 0nat)),
                        );
                    }
                    if run_overflowed {
                        proof {
                            assert(unit_multiplier(c) >= 1);
                            assert(run_true * unit_multiplier(c) >= run_true * 1) by (nonlinear_arith)
                                requires
                                    unit_multiplier(c) >= 1,
                                    run_true > 0,
                            ;
                        }
                        return Err(ParseHumanReadableDurationError);
                    }
                    let token_seconds = match run_val.checked_mul(m) {
                        Some(p) => p,
                        None => {
                            return Err(ParseHumanReadableDurationError);
                        },
                    };
                    match total.checked_add(token_seconds) {
                        Some(t) => {
                            total = t;
                        },
                        None => {
                            return Err(ParseHumanReadableDurationError);
                        },
                    }
                    found = true;
                    in_run = false;
                    proof {
                        done_count = done_count + 1;
                        run_true = 0nat;
                    }
                } else {
                    in_run = false;
                    proof {
                        run_true = 0nat;
                    }
                }
            } else {
                if let Some(d) = digit_of(c) {
                    in_run = true;
                    run_overflowed = false;
                    run_val = d;
                    proof {
                        run_true = digit_val(c);
                    }
                }
            }
            i += 1;
        }
        if found {
            Ok(HumanReadableDuration { time_in_seconds: total })
        } else {
            Err(ParseHumanReadableDurationError)
        }
    }
}

/// Parse a value from a string.
///
/// `FromStr`'s `from_str` method is often used implicitly, through `str`'s
/// `parse` method; it forwards to [`HumanReadableDuration::from_str`], whose
/// contract states what is returned.
impl core::str::FromStr for HumanReadableDuration {
    type Err = ParseHumanReadableDurationError;

    fn from_str(value: &str) -> Result<Self, Self::Err> {
        HumanReadableDuration::from_str(value)
    }
}

impl AsSeconds for HumanReadableDuration {
    /// The stored seconds count itself.
    open spec fn spec_seconds(&self) -> u64 {
        self@
    }

    /// Get the duration time in seconds.
    fn as_seconds(&self) -> (r: u64) {
        self.time_in_seconds
    }
}

impl AsMinutes for HumanReadableDuration {
    /// The stored seconds count divided by 60, rounded towards zero.
    open spec fn spec_minutes(&self) -> u64 {
        (self@ / 60) as u64
    }

    /// Get the duration time in full minutes.
    fn as_minutes(&self) -> (r: u64) {
        self.time_in_seconds / 60
    }
}

impl AsHours for HumanReadableDuration {
    /// The stored seconds count divided by 3600, rounded towards zero.
    open spec fn spec_hours(&self) -> u64 {
        (self@ / 3600) as u64
    }

    /// Get the duration time in full hours.
    fn as_hours(&self) -> (r: u64) {
        self.time_in_seconds / 3600
    }
}

impl AsDays for HumanReadableDuration {
    /// The stored seconds count divided by 86400, rounded towards zero.
    open spec fn spec_days(&self) -> u64 {
        (self@ / 86400) as u64
    }

    /// Get the duration time in full days.
    fn as_days(&self) -> (r: u64) {
        self.time_in_seconds / 86400
    }
}

impl AsDuration for HumanReadableDuration {
    /// Whether the seconds count fits the range of a [`chrono::Duration`].
    open spec fn duration_representable(&self) -> bool {
        self@ <= MAX_DELTA_SECONDS
    }

    /// The stored seconds count.
    open spec fn spec_duration_seconds(&self) -> int {
        self@ as int
    }

    /// Convert the object to a [`chrono::Duration`] representation.
    fn as_duration(&self) -> (r: chrono::Duration) {
        delta_from_seconds(self.time_in_seconds as i64)
    }
}

impl From<u64> for HumanReadableDuration {
    /// Create an instance of [`HumanReadableDuration`] from a `u64` field
    /// representing the seconds.
    fn from(value: u64) -> (r: Self)
        ensures
            r@ == value,
    {
        HumanReadableDuration { time_in_seconds: value }
    }
}

impl vstd::std_specs::convert::FromSpecImpl<u64> for HumanReadableDuration {
    open spec fn obeys_from_spec() -> bool {
        true
    }

    closed spec fn from_spec(v: u64) -> Self {
        HumanReadableDuration { time_in_seconds: v }
    }
}

impl From<u32> for HumanReadableDuration {
    /// Create an instance of [`HumanReadableDuration`] from a `u32` field
    /// representing the seconds.
    fn from(value: u32) -> (r: Self)
        ensures
            r@ == value,
    {
        HumanReadableDuration { time_in_seconds: value as u64 }
    }
}

impl vstd::std_specs::convert::FromSpecImpl<u32> for HumanReadableDuration {
    open spec fn obeys_from_spec() -> bool {
        true
    }

    closed spec fn from_spec(v: u32) -> Self {
        HumanReadableDuration { time_in_seconds: v as u64 }
    }
}

impl From<u16> for HumanReadableDuration {
    /// Create an instance of [`HumanReadableDuration`] from a `u16` field
    /// representing the seconds.
    fn from(value: u16) -> (r: Self)
        ensures
            r@ == value,
    {
        HumanReadableDuration { time_in_seconds: value as u64 }
    }
}

impl vstd::std_specs::convert::FromSpecImpl<u16> for HumanReadableDuration {
    open spec fn obeys_from_spec() -> bool {
        true
    }

    closed spec fn from_spec(v: u16) -> Self {
        HumanReadableDuration { time_in_seconds: v as u64 }
    }
}

impl From<u8> for HumanReadableDuration {
    /// Create an instance of [`HumanReadableDuration`] from a `u8` field
    /// representing the seconds.
    fn from(value: u8) -> (r: Self)
        ensures
            r@ == value,
    {
        HumanReadableDuration { time_in_seconds: value as u64 }
    }
}

impl vstd::std_specs::convert::FromSpecImpl<u8> for HumanReadableDuration {
    open spec fn obeys_from_spec() -> bool {
        true
    }

    closed spec fn from_spec(v: u8) -> Self {
        HumanReadableDuration { time_in_seconds: v as u64 }
    }
}

/// Law: a duration built from an integer seconds count reads back exactly that
/// count.
pub proof fn lemma_from_integer_round_trip(n: u64)
    ensures
        <HumanReadableDuration as vstd::std_specs::convert::FromSpec<u64>>::from_spec(
            n,
        ).spec_seconds() == n,
{
}

} // verus!
