//! The name of the output file, derived from local wall-clock time.

use vstd::prelude::*;
use chrono::{Datelike, Timelike};

verus! {

/// A local date and time of day, to the second.
#[derive(Debug, Clone, Copy, PartialEq, Eq)]
pub struct LocalTime {
    pub year: i32,
    pub month: u32,
    pub day: u32,
    pub hour: u32,
    pub minute: u32,
    pub second: u32,
}

impl LocalTime {
    /// Every field lies in the range a wall clock shows.
    pub open spec fn is_wall_clock(&self) -> bool {
        &&& 1 <= self.month <= 12
        &&& 1 <= self.day <= 31
        &&& self.hour <= 23
        &&& self.minute <= 59
        &&& self.second <= 59
    }
}

/// The character of a decimal digit.
pub open spec fn digit_char(d: nat) -> char {
    if d == 0 {
        '0'
    } else if d == 1 {
        '1'
    } else if d == 2 {
        '2'
    } else if d == 3 {
        '3'
    } else if d == 4 {
        '4'
    } else if d == 5 {
        '5'
    } else if d == 6 {
        '6'
    } else if d == 7 {
        '7'
    } else if d == 8 {
        '8'
    } else {
        '9'
    }
}

/// Decimal digits of `n`, most significant first, without leading zeros.
pub open spec fn decimal(n: nat) -> Seq<char>
    decreases n,
{
    if n < 10 {
        seq![digit_char(n)]
    } else {
        decimal(n / 10).push(digit_char(n % 10))
    }
}

/// `n` in decimal, padded with a zero to at least two digits.
pub open spec fn two_digits(n: nat) -> Seq<char> {
    if n < 10 {
        seq!['0', digit_char(n)]
    } else {
        decimal(n)
    }
}

/// `n` in decimal, with a minus sign when negative.
pub open spec fn signed_decimal(n: int) -> Seq<char> {
    if n < 0 {
        seq!['-'] + decimal((-n) as nat)
    } else {
        decimal(n as nat)
    }
}

/// What follows the timestamp in every file name.
pub open spec fn name_suffix() -> Seq<char> {
    "_brightened.png"@
}

/// The file name for an image taken at `t`: `MM-DD-YYYY_HH:MM:SS_brightened.png`.
pub open spec fn filename_of(t: LocalTime) -> Seq<char> {
    two_digits(t.month as nat) + seq!['-'] + two_digits(t.day as nat) + seq!['-'] + signed_decimal(
        t.year as int,
    ) + seq!['_'] + two_digits(t.hour as nat) + seq![':'] + two_digits(t.minute as nat) + seq![':']
        + two_digits(t.second as nat) + name_suffix()
}

/// The one-character string of a decimal digit.
fn digit_str(d: u32) -> (s: &'static str)
    requires
        d < 10,
    ensures
        s@ == seq![digit_char(d as nat)],
{
    proof {
        reveal_strlit("0");
        reveal_strlit("1");
        reveal_strlit("2");
        reveal_strlit("3");
        reveal_strlit("4");
        reveal_strlit("5");
        reveal_strlit("6");
        reveal_strlit("7");
        reveal_strlit("8");
        reveal_strlit("9");
    }
    let s = if d == 0 {
        "0"
    } else if d == 1 {
        "1"
    } else if d == 2 {
        "2"
    } else if d == 3 {
        "3"
    } else if d == 4 {
        "4"
    } else if d == 5 {
        "5"
    } else if d == 6 {
        "6"
    } else if d == 7 {
        "7"
    } else if d == 8 {
        "8"
    } else {
        "9"
    };
    assert(s@ =~= seq![digit_char(d as nat)]);
    s
}

/// Appends `n` in decimal to `out`.
fn push_decimal(out: &mut String, n: u32)
    ensures
        final(out)@ == old(out)@ + decimal(n as nat),
    decreases n,
{
    if n >= 10 {
        push_decimal(out, n / 10);
    }
    out.append(digit_str(n % 10));
    assert(out@ =~= old(out)@ + decimal(n as nat));
}

/// Appends `n` in decimal to `out`, zero-padded to two digits.
fn push_two_digits(out: &mut String, n: u32)
    ensures
        final(out)@ == old(out)@ + two_digits(n as nat),
{
    if n < 10 {
        out.append("0");
        proof {
            reveal_strlit("0");
        }
    }
    push_decimal(out, n);
    assert(out@ =~= old(out)@ + two_digits(n as nat));
}

/// Appends `n` in decimal to `out`, with a minus sign when negative.
fn push_signed(out: &mut String, n: i32)
    ensures
        final(out)@ == old(out)@ + signed_decimal(n as int),
{
    if n < 0 {
        out.append("-");
        proof {
            reveal_strlit("-");
        }
        let magnitude: u32 = (-(n as i64)) as u32;
        push_decimal(out, magnitude);
    } else {
        push_decimal(out, n as u32);
    }
    assert(out@ =~= old(out)@ + signed_decimal(n as int));
}

/// The file name for an image taken at `now`: month, day, hour, minute and
/// second zero-padded to two digits, the year in full, then
/// `_brightened.png`. The name has second resolution: two images taken within
/// the same second get the same name.
pub fn compute_filename(now: &LocalTime) -> (name: String)
    ensures
        name@ == filename_of(*now),
{
    let mut name = String::new();
    push_two_digits(&mut name, now.month);
    name.append("-");
    push_two_digits(&mut name, now.day);
    name.append("-");
    push_signed(&mut name, now.year);
    name.append("_");
    push_two_digits(&mut name, now.hour);
    name.append(":");
    push_two_digits(&mut name, now.minute);
    name.append(":");
    push_two_digits(&mut name, now.second);
    name.append("_brightened.png");
    proof {
        reveal_strlit("-");
        reveal_strlit("_");
        reveal_strlit(":");
    }
    assert(name@ =~= filename_of(*now));
    name
}

impl LocalTime {
    /// The year is written with exactly four digits.
    pub open spec fn has_four_digit_year(&self) -> bool {
        1000 <= self.year <= 9999
    }
}

/// A number below one hundred is written as its tens digit and its units
/// digit, so a number below ten gets a leading zero.
pub proof fn lemma_two_digits(n: nat)
    requires
        n < 100,
    ensures
        two_digits(n) == seq![digit_char(n / 10), digit_char(n % 10)],
{
    reveal_with_fuel(decimal, 2);
    assert(two_digits(n) =~= seq![digit_char(n / 10), digit_char(n % 10)]);
}

/// A year from 1000 to 9999 is written as its four digits.
pub proof fn lemma_four_digit_year(year: int)
    requires
        1000 <= year <= 9999,
    ensures
        signed_decimal(year) == seq![
            digit_char((year / 1000) as nat),
            digit_char((year / 100 % 10) as nat),
            digit_char((year / 10 % 10) as nat),
            digit_char((year % 10) as nat),
        ],
{
    reveal_with_fuel(decimal, 4);
    let n = year as nat;
    assert(n / 10 / 10 == n / 100);
    assert(n / 10 / 10 / 10 == n / 1000);
    assert(signed_decimal(year) =~= seq![
        digit_char((year / 1000) as nat),
        digit_char((year / 100 % 10) as nat),
        digit_char((year / 10 % 10) as nat),
        digit_char((year % 10) as nat),
    ]);
}

/// The name of a wall-clock time with a four-digit year has the fixed layout
/// `MM-DD-YYYY_HH:MM:SS_brightened.png`: 34 characters, every field at its
/// place with its leading zeros, the separators between them.
pub proof fn lemma_filename_layout(t: LocalTime)
    requires
        t.is_wall_clock(),
        t.has_four_digit_year(),
    ensures
        filename_of(t) == seq![
            digit_char((t.month / 10) as nat),
            digit_char((t.month % 10) as nat),
            '-',
            digit_char((t.day / 10) as nat),
            digit_char((t.day % 10) as nat),
            '-',
            digit_char((t.year / 1000) as nat),
            digit_char((t.year / 100 % 10) as nat),
            digit_char((t.year / 10 % 10) as nat),
            digit_char((t.year % 10) as nat),
            '_',
            digit_char((t.hour / 10) as nat),
            digit_char((t.hour % 10) as nat),
            ':',
            digit_char((t.minute / 10) as nat),
            digit_char((t.minute % 10) as nat),
            ':',
            digit_char((t.second / 10) as nat),
            digit_char((t.second % 10) as nat),
        ] + name_suffix(),
        filename_of(t).len() == 34,
{
    lemma_two_digits(t.month as nat);
    lemma_two_digits(t.day as nat);
    lemma_four_digit_year(t.year as int);
    lemma_two_digits(t.hour as nat);
    lemma_two_digits(t.minute as nat);
    lemma_two_digits(t.second as nat);
    reveal_strlit("_brightened.png");
    assert(filename_of(t) =~= seq![
        digit_char((t.month / 10) as nat),
        digit_char((t.month % 10) as nat),
        '-',
        digit_char((t.day / 10) as nat),
        digit_char((t.day % 10) as nat),
        '-',
        digit_char((t.year / 1000) as nat),
        digit_char((t.year / 100 % 10) as nat),
        digit_char((t.year / 10 % 10) as nat),
        digit_char((t.year % 10) as nat),
        '_',
        digit_char((t.hour / 10) as nat),
        digit_char((t.hour % 10) as nat),
        ':',
        digit_char((t.minute / 10) as nat),
        digit_char((t.minute % 10) as nat),
        ':',
        digit_char((t.second / 10) as nat),
        digit_char((t.second % 10) as nat),
    ] + name_suffix());
}

/// The name has second resolution: two times that agree in every field down
/// to the second get the same name, so two images taken within one second
/// collide.
pub proof fn lemma_same_second_same_name(a: LocalTime, b: LocalTime)
    requires
        a.year == b.year,
        a.month == b.month,
        a.day == b.day,
        a.hour == b.hour,
        a.minute == b.minute,
        a.second == b.second,
    ensures
        filename_of(a) == filename_of(b),
{
}

/// Different digits are written with different characters.
pub proof fn lemma_digit_chars_differ(c: nat, d: nat)
    requires
        c < 10,
        d < 10,
        digit_char(c) == digit_char(d),
    ensures
        c == d,
{
}

/// Two numbers below one hundred with the same tens digit and the same units
/// digit are the same number.
proof fn lemma_same_two_digits(m: nat, n: nat)
    requires
        m < 100,
        n < 100,
        digit_char(m / 10) == digit_char(n / 10),
        digit_char(m % 10) == digit_char(n % 10),
    ensures
        m == n,
{
    lemma_digit_chars_differ(m / 10, n / 10);
    lemma_digit_chars_differ(m % 10, n % 10);
}

/// Two years from 1000 to 9999 with the same four digits are the same year.
proof fn lemma_same_four_digits(m: int, n: int)
    requires
        1000 <= m <= 9999,
        1000 <= n <= 9999,
        digit_char((m / 1000) as nat) == digit_char((n / 1000) as nat),
        digit_char((m / 100 % 10) as nat) == digit_char((n / 100 % 10) as nat),
        digit_char((m / 10 % 10) as nat) == digit_char((n / 10 % 10) as nat),
        digit_char((m % 10) as nat) == digit_char((n % 10) as nat),
    ensures
        m == n,
{
    lemma_digit_chars_differ((m / 1000) as nat, (n / 1000) as nat);
    lemma_digit_chars_differ((m / 100 % 10) as nat, (n / 100 % 10) as nat);
    lemma_digit_chars_differ((m / 10 % 10) as nat, (n / 10 % 10) as nat);
    lemma_digit_chars_differ((m % 10) as nat, (n % 10) as nat);
}

/// Names collide only within one second: two wall-clock times with
/// four-digit years that differ in any field get different names.
pub proof fn lemma_different_seconds_different_names(a: LocalTime, b: LocalTime)
    requires
        a.is_wall_clock(),
        a.has_four_digit_year(),
        b.is_wall_clock(),
        b.has_four_digit_year(),
        a != b,
    ensures
        filename_of(a) != filename_of(b),
{
    let x = filename_of(a);
    let y = filename_of(b);
    if x == y {
        lemma_filename_layout(a);
        lemma_filename_layout(b);
        assert(a.month == b.month) by {
            assert(x[0] == y[0] && x[1] == y[1]);
            lemma_same_two_digits(a.month as nat, b.month as nat);
        }
        assert(a.day == b.day) by {
            assert(x[3] == y[3] && x[4] == y[4]);
            lemma_same_two_digits(a.day as nat, b.day as nat);
        }
        assert(a.year == b.year) by {
            assert(x[6] == y[6] && x[7] == y[7] && x[8] == y[8] && x[9] == y[9]);
            lemma_same_four_digits(a.year as int, b.year as int);
        }
        assert(a.hour == b.hour) by {
            assert(x[11] == y[11] && x[12] == y[12]);
            lemma_same_two_digits(a.hour as nat, b.hour as nat);
        }
        assert(a.minute == b.minute) by {
            assert(x[14] == y[14] && x[15] == y[15]);
            lemma_same_two_digits(a.minute as nat, b.minute as nat);
        }
        assert(a.second == b.second) by {
            assert(x[17] == y[17] && x[18] == y[18]);
            lemma_same_two_digits(a.second as nat, b.second as nat);
        }
    }
}

/// Reads the clock with `chrono::Local::now` and picks the calendar fields
/// with `Datelike::{year, month, day}` and `Timelike::{hour, minute, second}`.
/// Trusted: the ranges are the ones chrono documents for these getters.
/// Nothing is claimed of the instant itself, which differs from call to call.
/// `Local::now` panics when the system clock reads earlier than the Unix
/// epoch, and when no offset from UTC can be found for the instant in the
/// machine's time-zone data. Both are states of the machine, which no
/// precondition can leave out.
#[verifier::external_body]
fn local_now() -> (now: LocalTime)
    ensures
        now.is_wall_clock(),
{
    let t = chrono::Local::now();
    LocalTime {
        year: t.year(),
        month: t.month(),
        day: t.day(),
        hour: t.hour(),
        minute: t.minute(),
        second: t.second(),
    }
}

/// The file name for an image taken now, in the process's local time zone.
///
/// # Panics
///
/// Reading the clock panics when the system clock is set earlier than the
/// Unix epoch, or when the machine's time-zone data yields no offset from UTC
/// for the instant.
pub fn get_timestamp() -> (name: String)
    ensures
        exists|t: LocalTime| t.is_wall_clock() && name@ == #[trigger] filename_of(t),
{
    let now = local_now();
    compute_filename(&now)
}

} // verus!
