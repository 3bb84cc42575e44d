//! The mathematical model of the duration grammar.
//!
//! A duration string is scanned left to right. A token is a maximal run of
//! decimal digits immediately followed by one unit letter (`s`, `m`, `h` or
//! `d`, in either case). Every other character, including a digit run that is
//! not followed by a unit letter, is skipped. The value of a string is the sum
//! of `quantity * multiplier` over all of its tokens, as an unbounded natural
//! number.

use vstd::prelude::*;

verus! {

/// Whether `c` is a decimal digit.
pub open spec fn is_digit_char(c: char) -> bool {
    '0' <= c && c <= '9'
}

/// The numeric value of the decimal digit `c`.
pub open spec fn digit_val(c: char) -> nat
    recommends
        is_digit_char(c),
{
    (c as int - '0' as int) as nat
}

/// Whether `c` names a supported time unit (case insensitive).
pub open spec fn is_unit_char(c: char) -> bool {
    ||| c == 's' || c == 'S'
    ||| c == 'm' || c == 'M'
    ||| c == 'h' || c == 'H'
    ||| c == 'd' || c == 'D'
}

/// How many seconds one step of the unit named by `c` lasts.
pub open spec fn unit_multiplier(c: char) -> nat
    recommends
        is_unit_char(c),
{
    if c == 's' || c == 'S' {
        1
    } else if c == 'm' || c == 'M' {
        60
    } else if c == 'h' || c == 'H' {
        3600
    } else if c == 'd' || c == 'D' {
        86400
    } else {
        0
    }
}

/// The tokens found in `s` from position `i` on. `run` carries the value of
/// the digit run that ends right before position `i`, if one is open: a token
/// is emitted when an open run meets a unit letter, and abandoned when it
/// meets any other character.
pub open spec fn scan_tokens(s: Seq<char>, i: int, run: Option<nat>) -> Seq<(nat, char)>
    decreases s.len() - i,
{
    if i < 0 || i >= s.len() {
        Seq::empty()
    } else {
        let c = s[i];
        match run {
            Some(v) => {
                if is_digit_char(c) {
                    scan_tokens(s, i + 1, Some(v * 10 + digit_val(c)))
                } else if is_unit_char(c) {
                    seq![(v, c)] + scan_tokens(s, i + 1, None)
                } else {
                    scan_tokens(s, i + 1, None)
                }
            },
            None => {
                if is_digit_char(c) {
                    scan_tokens(s, i + 1, Some(digit_val(c)))
                } else {
                    scan_tokens(s, i + 1, None)
                }
            },
        }
    }
}

/// All (quantity, unit letter) tokens of the string `s`.
pub open spec fn spec_tokens(s: Seq<char>) -> Seq<(nat, char)> {
    scan_tokens(s, 0, None)
}

/// The number of seconds that a token sequence sums to.
pub open spec fn tokens_total(toks: Seq<(nat, char)>) -> nat
    decreases toks.len(),
{
    if toks.len() == 0 {
        0
    } else {
        toks[0].0 * unit_multiplier(toks[0].1) + tokens_total(toks.skip(1))
    }
}

/// The number of seconds that the string `s` stands for: the sum of
/// `quantity * multiplier` over all of its tokens.
pub open spec fn duration_total(s: Seq<char>) -> nat {
    tokens_total(spec_tokens(s))
}

/// The value of the digit run `ds` appended to an already accumulated value
/// `v`, reading left to right.
pub open spec fn extend_value(v: nat, ds: Seq<char>) -> nat
    decreases ds.len(),
{
    if ds.len() == 0 {
        v
    } else {
        extend_value(v * 10 + digit_val(ds[0]), ds.skip(1))
    }
}

/// The decimal value of the digit run `ds`.
pub open spec fn digits_value(ds: Seq<char>) -> nat {
    extend_value(0, ds)
}

/// The open digit run of a scan in progress: the accumulated value `v` when a
/// run is open, nothing otherwise.
pub open spec fn run_state(active: bool, v: nat) -> Option<nat> {
    if active {
        Some(v)
    } else {
        None
    }
}

/// Prepending one token adds its contribution to the total.
pub proof fn lemma_tokens_total_cons(t: (nat, char), rest: Seq<(nat, char)>)
    ensures
        tokens_total(seq![t] + rest) == t.0 * unit_multiplier(t.1) + tokens_total(rest),
{
    assert((seq![t] + rest).skip(1) =~= rest);
    assert((seq![t] + rest)[0] == t);
}

/// A scan that stands inside the digit run of a string that ends, after that
/// run, in a single unit letter yields exactly one token: the accumulated run
/// value and that letter.
proof fn lemma_scan_digit_tail(s: Seq<char>, i: int, v: nat)
    requires
        0 <= i < s.len(),
        is_unit_char(s.last()),
        forall|k: int| i <= k < s.len() - 1 ==> is_digit_char(#[trigger] s[k]),
    ensures
        scan_tokens(s, i, Some(v)) =~= seq![
            (extend_value(v, s.subrange(i, s.len() - 1)), s.last()),
        ],
    decreases s.len() - i,
{
    if i == s.len() - 1 {
        assert(scan_tokens(s, i + 1, None) =~= Seq::<(nat, char)>::empty());
        assert(scan_tokens(s, i, Some(v)) =~= seq![(v, s.last())]);
        assert(s.subrange(i, s.len() - 1) =~= Seq::<char>::empty());
        assert(extend_value(v, Seq::<char>::empty()) == v);
    } else {
        let d = digit_val(s[i]);
        lemma_scan_digit_tail(s, i + 1, v * 10 + d);
        let sub = s.subrange(i, s.len() - 1);
        assert(sub[0] == s[i]);
        assert(sub.skip(1) =~= s.subrange(i + 1, s.len() - 1));
        assert(extend_value(v, sub) == extend_value(v * 10 + d, sub.skip(1)));
    }
}

/// Law: a string that is exactly one token — a run of decimal digits followed
/// by one unit letter — has that single token, and its value is the run's
/// decimal value times the unit's multiplier.
pub proof fn lemma_single_token(s: Seq<char>)
    requires
        s.len() >= 2,
        is_unit_char(s.last()),
        forall|k: int| 0 <= k < s.len() - 1 ==> is_digit_char(#[trigger] s[k]),
    ensures
        spec_tokens(s) =~= seq![(digits_value(s.drop_last()), s.last())],
        duration_total(s) == digits_value(s.drop_last()) * unit_multiplier(s.last()),
{
    let d0 = digit_val(s[0]);
    lemma_scan_digit_tail(s, 1, d0);
    assert(s.drop_last() =~= s.subrange(0, s.len() - 1));
    assert(s.drop_last().skip(1) =~= s.subrange(1, s.len() - 1));
    let tok = (digits_value(s.drop_last()), s.last());
    assert(spec_tokens(s) =~= seq![tok]);
    assert(tokens_total(seq![tok]) == tok.0 * unit_multiplier(tok.1)) by {
        assert(seq![tok].skip(1) =~= Seq::<(nat, char)>::empty());
        assert(tokens_total(Seq::<(nat, char)>::empty()) == 0);
    }
}

/// Whether `a` and `b` are the same character up to the case of a unit letter.
pub open spec fn unit_case_eq(a: char, b: char) -> bool {
    a == b || (is_unit_char(a) && is_unit_char(b) && unit_multiplier(a) == unit_multiplier(b))
}

/// Scans of two strings that agree up to the case of unit letters find the
/// same number of tokens and the same total.
proof fn lemma_scan_case_insensitive(s: Seq<char>, t: Seq<char>, i: int, run: Option<nat>)
    requires
        s.len() == t.len(),
        forall|k: int| 0 <= k < s.len() ==> unit_case_eq(#[trigger] s[k], t[k]),
    ensures
        scan_tokens(s, i, run).len() == scan_tokens(t, i, run).len(),
        tokens_total(scan_tokens(s, i, run)) == tokens_total(scan_tokens(t, i, run)),
    decreases s.len() - i,
{
    if 0 <= i < s.len() {
        let a = s[i];
        let b = t[i];
        assert(unit_case_eq(a, b));
        match run {
            Some(v) => {
                if is_digit_char(a) {
                    lemma_scan_case_insensitive(s, t, i + 1, Some(v * 10 + digit_val(a)));
                } else if is_unit_char(a) {
                    lemma_scan_case_insensitive(s, t, i + 1, None);
                    lemma_tokens_total_cons((v, a), scan_tokens(s, i + 1, None));
                    lemma_tokens_total_cons((v, b), scan_tokens(t, i + 1, None));
                } else {
                    lemma_scan_case_insensitive(s, t, i + 1, None);
                }
            },
            None => {
                if is_digit_char(a) {
                    lemma_scan_case_insensitive(s, t, i + 1, Some(digit_val(a)));
                } else {
                    lemma_scan_case_insensitive(s, t, i + 1, None);
                }
            },
        }
    }
}

/// Law: unit letters are case insensitive. Two strings that agree except for
/// the case of unit letters have the same number of tokens and stand for the
/// same number of seconds.
pub proof fn lemma_case_insensitive(s: Seq<char>, t: Seq<char>)
    requires
        s.len() == t.len(),
        forall|k: int| 0 <= k < s.len() ==> unit_case_eq(#[trigger] s[k], t[k]),
    ensures
        spec_tokens(s).len() == spec_tokens(t).len(),
        duration_total(s) == duration_total(t),
{
    lemma_scan_case_insensitive(s, t, 0, None);
}

} // verus!
