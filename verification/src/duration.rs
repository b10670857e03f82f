//! The duration calculator: turns job lifecycle timestamps into the
//! human-readable elapsed-time strings shown in the table and detail views.
//!
//! A timestamp is "unset" when it is absent or zero; an unset governing
//! timestamp renders as `"-"`. Otherwise the elapsed milliseconds are clamped
//! at zero and rendered as seconds with exactly three decimal places.

use vstd::prelude::*;
use vstd::string::*;

verus! {

/// The ASCII character for one decimal digit.
pub open spec fn digit_char(d: int) -> char {
    if d == 0 {
        '0'
    } else if d == 1 {
        '1'
    } else if d == 2 {
        '2'
    } else if d == 3 {
        '3'
    } else if d == 4 {
        '4'
    } else if d == 5 {
        '5'
    } else if d == 6 {
        '6'
    } else if d == 7 {
        '7'
    } else if d == 8 {
        '8'
    } else {
        '9'
    }
}

pub open spec fn is_digit_char(c: char) -> bool {
    c == '0' || c == '1' || c == '2' || c == '3' || c == '4' || c == '5' || c == '6' || c == '7'
        || c == '8' || c == '9'
}

pub open spec fn all_digits(s: Seq<char>) -> bool {
    forall|i: int| 0 <= i < s.len() ==> is_digit_char(#[trigger] s[i])
}

/// Decimal rendering of a natural number, most significant digit first.
pub open spec fn dec_digits(n: nat) -> Seq<char>
    decreases n,
{
    if n < 10 {
        seq![digit_char(n as int)]
    } else {
        dec_digits(n / 10) + seq![digit_char((n % 10) as int)]
    }
}

/// The three zero-padded fractional digits of a millisecond remainder.
pub open spec fn frac3(f: int) -> Seq<char> {
    seq![digit_char(f / 100), digit_char(f / 10 % 10), digit_char(f % 10)]
}

/// Elapsed milliseconds rendered as seconds with three decimal places.
pub open spec fn spec_format_duration(ms: int) -> Seq<char> {
    dec_digits((ms / 1000) as nat) + seq!['.'] + frac3(ms % 1000)
}

/// Whether an optional timestamp carries a real instant ("unset" is encoded
/// as absence or zero).
pub open spec fn ts_set(t: Option<u64>) -> bool {
    t is Some && t.unwrap() > 0
}

/// Elapsed milliseconds from `start` to `end`, clamped at zero so that
/// inconsistent timestamps never underflow.
pub open spec fn clamped_elapsed(start: u64, end: u64) -> int {
    if end >= start {
        end - start
    } else {
        0
    }
}

/// The waiting-duration column: time from `waiting_at` until the job started
/// running, or until now if it has not.
pub open spec fn spec_waiting_display(
    waiting_at: Option<u64>,
    running_at: Option<u64>,
    now_ms: u64,
) -> Seq<char> {
    if ts_set(waiting_at) {
        let end = if ts_set(running_at) {
            running_at.unwrap()
        } else {
            now_ms
        };
        spec_format_duration(clamped_elapsed(waiting_at.unwrap(), end))
    } else {
        seq!['-']
    }
}

/// The running-duration column: time from `running_at` until termination, or
/// until now if the job is still running.
pub open spec fn spec_running_display(
    running_at: Option<u64>,
    terminated_at: Option<u64>,
    now_ms: u64,
) -> Seq<char> {
    if ts_set(running_at) {
        let end = if ts_set(terminated_at) {
            terminated_at.unwrap()
        } else {
            now_ms
        };
        spec_format_duration(clamped_elapsed(running_at.unwrap(), end))
    } else {
        seq!['-']
    }
}

/// The completed/aborted-ago column: time since `terminated_at`.
pub open spec fn spec_terminal_display(terminated_at: Option<u64>, now_ms: u64) -> Seq<char> {
    if ts_set(terminated_at) {
        spec_format_duration(clamped_elapsed(terminated_at.unwrap(), now_ms))
    } else {
        seq!['-']
    }
}

/// The single ASCII digit string for `d`.
fn digit_str(d: u64) -> (s: &'static str)
    requires
        d < 10,
    ensures
        s@ == seq![digit_char(d as int)],
{
    if d == 0 {
        proof {
            reveal_strlit("0");
            assert("0"@ =~= seq![digit_char(0)]);
        }
        "0"
    } else if d == 1 {
        proof {
            reveal_strlit("1");
            assert("1"@ =~= seq![digit_char(1)]);
        }
        "1"
    } else if d == 2 {
        proof {
            reveal_strlit("2");
            assert("2"@ =~= seq![digit_char(2)]);
        }
        "2"
    } else if d == 3 {
        proof {
            reveal_strlit("3");
            assert("3"@ =~= seq![digit_char(3)]);
        }
        "3"
    } else if d == 4 {
        proof {
            reveal_strlit("4");
            assert("4"@ =~= seq![digit_char(4)]);
        }
        "4"
    } else if d == 5 {
        proof {
            reveal_strlit("5");
            assert("5"@ =~= seq![digit_char(5)]);
        }
        "5"
    } else if d == 6 {
        proof {
            reveal_strlit("6");
            assert("6"@ =~= seq![digit_char(6)]);
        }
        "6"
    } else if d == 7 {
        proof {
            reveal_strlit("7");
            assert("7"@ =~= seq![digit_char(7)]);
        }
        "7"
    } else if d == 8 {
        proof {
            reveal_strlit("8");
            assert("8"@ =~= seq![digit_char(8)]);
        }
        "8"
    } else {
        proof {
            reveal_strlit("9");
            assert("9"@ =~= seq![digit_char(9)]);
        }
        "9"
    }
}

/// Decimal rendering of `n` as a string.
pub fn u64_to_dec(n: u64) -> (s: String)
    ensures
        s@ == dec_digits(n as nat),
    decreases n,
{
    if n < 10 {
        let s = String::from_str(digit_str(n));
        proof {
            assert(s@ =~= dec_digits(n as nat));
        }
        s
    } else {
        let mut s = u64_to_dec(n / 10);
        s.append(digit_str(n % 10));
        proof {
            assert(s@ =~= dec_digits(n as nat));
        }
        s
    }
}

/// Milliseconds rendered as seconds with exactly three decimal places.
pub fn format_duration_ms(ms: u64) -> (s: String)
    ensures
        s@ == spec_format_duration(ms as int),
{
    let frac: u64 = ms % 1000;
    let mut s = u64_to_dec(ms / 1000);
    s.append(".");
    s.append(digit_str(frac / 100));
    s.append(digit_str(frac / 10 % 10));
    s.append(digit_str(frac % 10));
    proof {
        reveal_strlit(".");
        assert(s@ =~= spec_format_duration(ms as int));
    }
    s
}

/// The `"-"` placeholder shown for an unset timestamp.
fn dash() -> (s: String)
    ensures
        s@ == seq!['-'],
{
    proof {
        reveal_strlit("-");
        assert("-"@ =~= seq!['-']);
    }
    String::from_str("-")
}

/// The end instant of a phase: the next phase's timestamp if set, else now.
fn end_or_now(t: Option<u64>, now_ms: u64) -> (r: u64)
    ensures
        r == if ts_set(t) {
            t.unwrap()
        } else {
            now_ms
        },
{
    match t {
        Some(x) => if x > 0 {
            x
        } else {
            now_ms
        },
        None => now_ms,
    }
}

/// Subtraction clamped at zero.
fn clamped_sub(end: u64, start: u64) -> (r: u64)
    ensures
        r as int == clamped_elapsed(start, end),
{
    if end >= start {
        end - start
    } else {
        0
    }
}

/// The three duration columns for one job: waiting, running, and
/// completed/aborted-ago, each `"-"` when its governing timestamp is unset.
pub fn compute_durations(
    waiting_at: Option<u64>,
    running_at: Option<u64>,
    terminated_at: Option<u64>,
    now_ms: u64,
) -> (res: (String, String, String))
    ensures
        res.0@ == spec_waiting_display(waiting_at, running_at, now_ms),
        res.1@ == spec_running_display(running_at, terminated_at, now_ms),
        res.2@ == spec_terminal_display(terminated_at, now_ms),
{
    let waiting_str: String = match waiting_at {
        Some(w) => if w > 0 {
            let end = end_or_now(running_at, now_ms);
            format_duration_ms(clamped_sub(end, w))
        } else {
            dash()
        },
        None => dash(),
    };
    let running_str: String = match running_at {
        Some(r) => if r > 0 {
            let end = end_or_now(terminated_at, now_ms);
            format_duration_ms(clamped_sub(end, r))
        } else {
            dash()
        },
        None => dash(),
    };
    let terminal_str: String = match terminated_at {
        Some(t) => if t > 0 {
            format_duration_ms(clamped_sub(now_ms, t))
        } else {
            dash()
        },
        None => dash(),
    };
    (waiting_str, running_str, terminal_str)
}

pub proof fn lemma_dec_digits_shape(n: nat)
    ensures
        dec_digits(n).len() >= 1,
        all_digits(dec_digits(n)),
    decreases n,
{
    if n < 10 {
    } else {
        lemma_dec_digits_shape(n / 10);
        let s = dec_digits(n);
        let prefix = dec_digits(n / 10);
        assert forall|i: int| 0 <= i < s.len() implies is_digit_char(s[i]) by {
            if i < prefix.len() {
                assert(s[i] == prefix[i]);
            } else {
                assert(s[i] == digit_char((n % 10) as int));
            }
        }
    }
}

/// The shape a non-dash duration string always has: at least one digit,
/// then a single dot, then exactly three fractional digits.
pub open spec fn three_decimal_shape(s: Seq<char>) -> bool {
    &&& s.len() >= 5
    &&& s[s.len() - 4] == '.'
    &&& all_digits(s.subrange(0, s.len() - 4))
    &&& all_digits(s.subrange(s.len() - 3, s.len() as int))
    &&& forall|i: int| 0 <= i < s.len() && i != s.len() - 4 ==> s[i] != '.'
}

/// A rendered duration always has the shape `digits '.' d d d`: at least one
/// digit, then a dot, then exactly three fractional digits, and no other dot
/// anywhere.
pub proof fn lemma_duration_display_shape(ms: int)
    requires
        ms >= 0,
    ensures
        three_decimal_shape(spec_format_duration(ms)),
{
    let s = spec_format_duration(ms);
    let whole = dec_digits((ms / 1000) as nat);
    lemma_dec_digits_shape((ms / 1000) as nat);
    assert(s.subrange(0, s.len() - 4) =~= whole);
    assert(s.subrange(s.len() - 3, s.len() as int) =~= frac3(ms % 1000));
    assert forall|i: int| 0 <= i < s.len() && i != s.len() - 4 implies s[i] != '.' by {
        if i < whole.len() {
            assert(s[i] == whole[i]);
            assert(is_digit_char(whole[i]));
        } else {
            assert(s[i] == frac3(ms % 1000)[i - whole.len() - 1]);
        }
    }
}

/// The numeric value a sequence of digit characters denotes.
pub open spec fn digit_val(c: char) -> int {
    if c == '0' {
        0
    } else if c == '1' {
        1
    } else if c == '2' {
        2
    } else if c == '3' {
        3
    } else if c == '4' {
        4
    } else if c == '5' {
        5
    } else if c == '6' {
        6
    } else if c == '7' {
        7
    } else if c == '8' {
        8
    } else if c == '9' {
        9
    } else {
        0
    }
}

pub open spec fn digits_val(s: Seq<char>) -> int
    decreases s.len(),
{
    if s.len() == 0 {
        0
    } else {
        digits_val(s.drop_last()) * 10 + digit_val(s.last())
    }
}

/// A digit character denotes the digit it was made from.
pub proof fn lemma_digit_roundtrip(d: int)
    requires
        0 <= d < 10,
    ensures
        digit_val(digit_char(d)) == d,
{
}

pub proof fn lemma_digits_val_dec_digits(n: nat)
    ensures
        digits_val(dec_digits(n)) == n,
    decreases n,
{
    if n < 10 {
        let s = dec_digits(n);
        assert(s.drop_last() =~= Seq::<char>::empty());
        assert(digits_val(Seq::<char>::empty()) == 0);
        assert(s.last() == digit_char(n as int));
        lemma_digit_roundtrip(n as int);
        assert(digits_val(s) == digit_val(digit_char(n as int)));
    } else {
        lemma_digits_val_dec_digits(n / 10);
        let s = dec_digits(n);
        assert(s.drop_last() =~= dec_digits(n / 10));
        assert(s.last() == digit_char((n % 10) as int));
        lemma_digit_roundtrip((n % 10) as int);
        assert(digits_val(s) == digits_val(dec_digits(n / 10)) * 10 + digit_val(s.last()));
        assert(n / 10 * 10 + n % 10 == n);
    }
}

/// The milliseconds a rendered duration string denotes: the digits before the
/// dot are whole seconds, the three after it are the fraction.
pub open spec fn duration_display_val(s: Seq<char>) -> int {
    digits_val(s.subrange(0, s.len() - 4)) * 1000 + digits_val(
        s.subrange(s.len() - 3, s.len() as int),
    )
}

/// The three fractional digits denote the millisecond remainder they encode.
pub proof fn lemma_digits_val_frac3(f: int)
    requires
        0 <= f < 1000,
    ensures
        digits_val(frac3(f)) == f,
{
    let a = digit_char(f / 100);
    let b = digit_char(f / 10 % 10);
    let c = digit_char(f % 10);
    assert(frac3(f).drop_last() =~= seq![a, b]);
    assert(seq![a, b].drop_last() =~= seq![a]);
    assert(seq![a].drop_last() =~= Seq::<char>::empty());
    assert(digits_val(Seq::<char>::empty()) == 0);
    assert(digits_val(seq![a]) == digit_val(a));
    assert(digits_val(seq![a, b]) == digit_val(a) * 10 + digit_val(b));
    assert(digits_val(frac3(f)) == (digit_val(a) * 10 + digit_val(b)) * 10 + digit_val(c));
    lemma_digit_roundtrip(f / 100);
    lemma_digit_roundtrip(f / 10 % 10);
    lemma_digit_roundtrip(f % 10);
    assert((f / 100 * 10 + f / 10 % 10) * 10 + f % 10 == f) by (nonlinear_arith)
        requires
            0 <= f < 1000,
    ;
}

/// Rendering loses nothing: reading a rendered duration back yields exactly
/// the elapsed milliseconds that were rendered.
pub proof fn lemma_duration_display_val(ms: int)
    requires
        ms >= 0,
    ensures
        duration_display_val(spec_format_duration(ms)) == ms,
{
    let s = spec_format_duration(ms);
    let whole = dec_digits((ms / 1000) as nat);
    let f = ms % 1000;
    assert(s.subrange(0, s.len() - 4) =~= whole);
    lemma_digits_val_dec_digits((ms / 1000) as nat);
    assert(s.subrange(s.len() - 3, s.len() as int) =~= frac3(f));
    lemma_digits_val_frac3(f);
    assert(duration_display_val(s) == ms / 1000 * 1000 + f);
}

/// Duration formatting is monotonic in elapsed time: a longer elapsed time
/// never renders as a string denoting a shorter one.
pub proof fn lemma_duration_display_monotonic(a: int, b: int)
    requires
        0 <= a <= b,
    ensures
        duration_display_val(spec_format_duration(a)) <= duration_display_val(
            spec_format_duration(b),
        ),
{
    lemma_duration_display_val(a);
    lemma_duration_display_val(b);
}

/// Each duration column renders either as `"-"` or with exactly three
/// decimal places.
pub proof fn lemma_display_three_decimals(
    waiting_at: Option<u64>,
    running_at: Option<u64>,
    terminated_at: Option<u64>,
    now_ms: u64,
)
    ensures
        spec_waiting_display(waiting_at, running_at, now_ms) == seq!['-'] || three_decimal_shape(
            spec_waiting_display(waiting_at, running_at, now_ms),
        ),
        spec_running_display(running_at, terminated_at, now_ms) == seq!['-']
            || three_decimal_shape(spec_running_display(running_at, terminated_at, now_ms)),
        spec_terminal_display(terminated_at, now_ms) == seq!['-'] || three_decimal_shape(
            spec_terminal_display(terminated_at, now_ms),
        ),
{
    if ts_set(waiting_at) {
        let end = if ts_set(running_at) {
            running_at.unwrap()
        } else {
            now_ms
        };
        lemma_duration_display_shape(clamped_elapsed(waiting_at.unwrap(), end));
    }
    if ts_set(running_at) {
        let end = if ts_set(terminated_at) {
            terminated_at.unwrap()
        } else {
            now_ms
        };
        lemma_duration_display_shape(clamped_elapsed(running_at.unwrap(), end));
    }
    if ts_set(terminated_at) {
        lemma_duration_display_shape(clamped_elapsed(terminated_at.unwrap(), now_ms));
    }
}

/// A duration column reads `"-"` exactly when its governing timestamp is
/// unset: unset `waiting_at` dashes the waiting column and only that column,
/// and likewise for `running_at` and `terminated_at`.
pub proof fn lemma_dash_exactly_when_unset(
    waiting_at: Option<u64>,
    running_at: Option<u64>,
    terminated_at: Option<u64>,
    now_ms: u64,
)
    ensures
        (spec_waiting_display(waiting_at, running_at, now_ms) == seq!['-']) <==> !ts_set(
            waiting_at,
        ),
        (spec_running_display(running_at, terminated_at, now_ms) == seq!['-']) <==> !ts_set(
            running_at,
        ),
        (spec_terminal_display(terminated_at, now_ms) == seq!['-']) <==> !ts_set(terminated_at),
{
    if ts_set(waiting_at) {
        let end = if ts_set(running_at) {
            running_at.unwrap()
        } else {
            now_ms
        };
        lemma_duration_display_shape(clamped_elapsed(waiting_at.unwrap(), end));
    }
    if ts_set(running_at) {
        let end = if ts_set(terminated_at) {
            terminated_at.unwrap()
        } else {
            now_ms
        };
        lemma_duration_display_shape(clamped_elapsed(running_at.unwrap(), end));
    }
    if ts_set(terminated_at) {
        lemma_duration_display_shape(clamped_elapsed(terminated_at.unwrap(), now_ms));
    }
}

} // verus!
