use vstd::prelude::*;

verus! {

// ---------------------------------------------------------------------------
// Countdown display: a binary minutes flag and two seconds digits.
// ---------------------------------------------------------------------------

/// The minutes sprite is a flag, not a minute count: it shows 1 whenever a
/// full minute or more is left and 0 otherwise.
pub open spec fn minute_flag(t: nat) -> nat {
    if t >= 60 {
        1
    } else {
        0
    }
}

/// Tens-of-seconds digit of the time left within the current minute.
pub open spec fn time_tens(t: nat) -> nat {
    (t % 60) / 10
}

/// Ones-of-seconds digit of the time left.
pub open spec fn time_ones(t: nat) -> nat {
    t % 10
}

// ---------------------------------------------------------------------------
// Score display: four decimal digits. The score is not clamped below 10000;
// for larger scores the displayed thousands digit silently truncates to
// (score % 10000) / 1000, a documented limit of the four-digit HUD.
// ---------------------------------------------------------------------------

/// Thousands digit of the displayed score.
pub open spec fn score_thousands(s: nat) -> nat {
    (s % 10000) / 1000
}

/// Hundreds digit of the displayed score.
pub open spec fn score_hundreds(s: nat) -> nat {
    (s % 1000) / 100
}

/// Tens digit of the displayed score.
pub open spec fn score_tens(s: nat) -> nat {
    (s % 100) / 10
}

/// Ones digit of the displayed score.
pub open spec fn score_ones(s: nat) -> nat {
    s % 10
}

// ---------------------------------------------------------------------------
// Executable digit computations.
// ---------------------------------------------------------------------------

/// Minutes flag of the countdown display.
pub fn minute_flag_digit(t: usize) -> (d: u32)
    ensures
        d == minute_flag(t as nat),
{
    if t >= 60 {
        1
    } else {
        0
    }
}

/// Tens-of-seconds digit of the countdown display.
pub fn time_tens_digit(t: usize) -> (d: u32)
    ensures
        d == time_tens(t as nat),
        d <= 5,
{
    ((t % 60) / 10) as u32
}

/// Ones-of-seconds digit of the countdown display.
pub fn time_ones_digit(t: usize) -> (d: u32)
    ensures
        d == time_ones(t as nat),
        d <= 9,
{
    (t % 10) as u32
}

/// Thousands digit of the displayed score.
pub fn score_thousands_digit(s: usize) -> (d: u32)
    ensures
        d == score_thousands(s as nat),
        d <= 9,
{
    ((s % 10000) / 1000) as u32
}

/// Hundreds digit of the displayed score.
pub fn score_hundreds_digit(s: usize) -> (d: u32)
    ensures
        d == score_hundreds(s as nat),
        d <= 9,
{
    ((s % 1000) / 100) as u32
}

/// Tens digit of the displayed score.
pub fn score_tens_digit(s: usize) -> (d: u32)
    ensures
        d == score_tens(s as nat),
        d <= 9,
{
    ((s % 100) / 10) as u32
}

/// Ones digit of the displayed score.
pub fn score_ones_digit(s: usize) -> (d: u32)
    ensures
        d == score_ones(s as nat),
        d <= 9,
{
    (s % 10) as u32
}

// ---------------------------------------------------------------------------
// Laws of the digit encodings.
// ---------------------------------------------------------------------------

/// For every time value displayable on the countdown, the tens digit is
/// `(t % 60) / 10`, the ones digit is `t % 10`, and the minutes flag is 1
/// exactly when a full minute or more is left.
pub proof fn lemma_clock_digits(t: nat)
    requires
        t <= 89,
    ensures
        time_tens(t) == (t % 60) / 10,
        time_ones(t) == t % 10,
        minute_flag(t) == 1 <==> t >= 60,
{
}

/// For every score below 10000 the four displayed digits reconstruct the
/// score exactly.
pub proof fn lemma_score_digits_round_trip(s: nat)
    requires
        s <= 9999,
    ensures
        1000 * score_thousands(s) + 100 * score_hundreds(s) + 10 * score_tens(s) + score_ones(s)
            == s,
{
    assert(s % 10000 == s) by {
        vstd::arithmetic::div_mod::lemma_small_mod(s, 10000);
    }
    assert((s % 1000) % 100 == s % 100) by {
        vstd::arithmetic::div_mod::lemma_mod_mod(s as int, 100, 10);
    }
    assert((s % 100) % 10 == s % 10) by {
        vstd::arithmetic::div_mod::lemma_mod_mod(s as int, 10, 10);
    }
    assert(s == 1000 * (s / 1000) + s % 1000) by {
        vstd::arithmetic::div_mod::lemma_fundamental_div_mod(s as int, 1000);
    }
    assert(s % 1000 == 100 * ((s % 1000) / 100) + (s % 1000) % 100) by {
        vstd::arithmetic::div_mod::lemma_fundamental_div_mod((s % 1000) as int, 100);
    }
    assert(s % 100 == 10 * ((s % 100) / 10) + (s % 100) % 10) by {
        vstd::arithmetic::div_mod::lemma_fundamental_div_mod((s % 100) as int, 10);
    }
    assert(s / 1000 == (s % 10000) / 1000);
}

} // verus!
