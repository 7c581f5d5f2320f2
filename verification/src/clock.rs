//! Time stamps of the console: the time of day in UTC as `HH:MM:SS`.

use vstd::prelude::*;
use vstd::arithmetic::div_mod::{lemma_mod_breakdown, lemma_mod_mod};
use crate::platform::{since_epoch, system_now, whole_seconds};
use crate::text::{digit, digit_char, push_char};

verus! {

/// Two decimal digits for `n < 100`, with a leading zero.
pub open spec fn two_digits(n: nat) -> Seq<char> {
    seq![digit_char(n / 10), digit_char(n % 10)]
}

/// The time of day, in UTC, `secs` seconds after 1970-01-01 00:00 UTC.
pub open spec fn clock_text(secs: nat) -> Seq<char> {
    two_digits((secs / 3600) % 24) + seq![':'] + two_digits((secs / 60) % 60) + seq![':']
        + two_digits(secs % 60)
}

fn push_two_digits(s: &mut String, n: u64)
    requires
        n < 100,
    ensures
        final(s)@ == old(s)@ + two_digits(n as nat),
{
    push_char(s, digit(n / 10));
    push_char(s, digit(n % 10));
    assert(final(s)@ =~= old(s)@ + two_digits(n as nat));
}

/// `secs` as a time of day, `HH:MM:SS`.
pub fn clock_text_of(secs: u64) -> (t: String)
    ensures
        t@ == clock_text(secs as nat),
{
    let mut t = String::new();
    push_two_digits(&mut t, (secs / 3600) % 24);
    push_char(&mut t, ':');
    push_two_digits(&mut t, (secs / 60) % 60);
    push_char(&mut t, ':');
    push_two_digits(&mut t, secs % 60);
    assert(t@ =~= clock_text(secs as nat));
    t
}

/// The time stamp for the seconds since 1970, or midnight (`00:00:00`)
/// where the clock is set before 1970.
pub open spec fn clock_text_or_midnight(secs: Option<u64>) -> Seq<char> {
    match secs {
        Some(s) => clock_text(s as nat),
        None => clock_text(0),
    }
}

/// The time stamp for `secs` seconds since 1970, or `00:00:00` for `None`.
pub fn clock_text_since_epoch(secs: Option<u64>) -> (t: String)
    ensures
        t@ == clock_text_or_midnight(secs),
        secs is None ==> t@ == seq!['0', '0', ':', '0', '0', ':', '0', '0'],
{
    match secs {
        Some(s) => clock_text_of(s),
        None => {
            let t = clock_text_of(0);
            assert(t@ =~= seq!['0', '0', ':', '0', '0', ':', '0', '0']);
            t
        },
    }
}

/// The current time of day, `HH:MM:SS` in UTC; `00:00:00` when the clock is
/// set before 1970.
pub fn chrono_now() -> (t: String)
    ensures
        exists|secs: Option<u64>| t@ == clock_text_or_midnight(secs),
{
    let now = system_now();
    let secs = match since_epoch(&now) {
        Some(d) => Some(whole_seconds(&d)),
        None => None,
    };
    let t = clock_text_since_epoch(secs);
    assert(t@ == clock_text_or_midnight(secs));
    t
}

proof fn lemma_div_of_sum(a: int, b: int, d: int)
    by (nonlinear_arith)
    requires
        0 <= a,
        0 <= b < d,
    ensures
        (d * a + b) / d == a,
{
}

/// The clock turns over at midnight: a time stamp depends only on the
/// seconds since the last midnight, and always has the form `HH:MM:SS`.
pub proof fn law_clock_wraps_daily(secs: nat)
    ensures
        clock_text(secs) == clock_text(secs % 86400),
        clock_text(secs).len() == 8,
        clock_text(secs)[2] == ':' && clock_text(secs)[5] == ':',
{
    let s = secs as int;
    let r = s % 86400;
    lemma_mod_mod(s, 60, 1440);
    lemma_mod_breakdown(s, 60, 1440);
    lemma_div_of_sum((s / 60) % 1440, s % 60, 60);
    lemma_mod_mod(s / 60, 60, 24);
    lemma_mod_breakdown(s, 3600, 24);
    lemma_div_of_sum((s / 3600) % 24, s % 3600, 3600);
    assert(r % 60 == s % 60);
    assert(r / 60 == (s / 60) % 1440);
    assert((r / 60) % 60 == (s / 60) % 60);
    assert(r / 3600 == (s / 3600) % 24);
    assert((r / 3600) % 24 == (s / 3600) % 24);
}

} // verus!
