//! The canonical text of an HTTP timestamp, the IMF-fixdate of RFC 7231:
//!
//! ```text
//! Sun, 06 Nov 1994 08:49:37 GMT
//! ```
//!
//! The functions here say, character by character, what that text is for a
//! given calendar time. They are specifications only: nothing here runs.

use vstd::prelude::*;
use crate::calendar::CalendarTime;

verus! {

/// The decimal digit for `d`, 0 to 9.
pub open spec fn digit(d: int) -> char {
    if d == 0 {
        '0'
    } else if d == 1 {
        '1'
    } else if d == 2 {
        '2'
    } else if d == 3 {
        '3'
    } else if d == 4 {
        '4'
    } else if d == 5 {
        '5'
    } else if d == 6 {
        '6'
    } else if d == 7 {
        '7'
    } else if d == 8 {
        '8'
    } else {
        '9'
    }
}

/// Whether `c` is one of the ten decimal digits.
pub open spec fn is_digit(c: char) -> bool {
    '0' <= c <= '9'
}

/// `n`, 0 to 99, as two digits with a leading zero.
pub open spec fn two_digits(n: int) -> Seq<char> {
    seq![digit(n / 10), digit(n % 10)]
}

/// `n` in decimal, with as many digits as it needs and no leading zero.
pub open spec fn decimal(n: nat) -> Seq<char>
    decreases n,
{
    if n < 10 {
        seq![digit(n as int)]
    } else {
        decimal(n / 10).push(digit((n % 10) as int))
    }
}

/// `n` in decimal, with a minus sign where it is negative.
pub open spec fn signed_decimal(n: int) -> Seq<char> {
    if n < 0 {
        seq!['-'] + decimal((-n) as nat)
    } else {
        decimal(n as nat)
    }
}

/// The three-letter English name of the day `wday` days after Sunday.
pub open spec fn weekday_name(wday: int) -> Seq<char> {
    if wday == 0 {
        seq!['S', 'u', 'n']
    } else if wday == 1 {
        seq!['M', 'o', 'n']
    } else if wday == 2 {
        seq!['T', 'u', 'e']
    } else if wday == 3 {
        seq!['W', 'e', 'd']
    } else if wday == 4 {
        seq!['T', 'h', 'u']
    } else if wday == 5 {
        seq!['F', 'r', 'i']
    } else {
        seq!['S', 'a', 't']
    }
}

/// The three-letter English name of the month `mon` months after January.
pub open spec fn month_name(mon: int) -> Seq<char> {
    if mon == 0 {
        seq!['J', 'a', 'n']
    } else if mon == 1 {
        seq!['F', 'e', 'b']
    } else if mon == 2 {
        seq!['M', 'a', 'r']
    } else if mon == 3 {
        seq!['A', 'p', 'r']
    } else if mon == 4 {
        seq!['M', 'a', 'y']
    } else if mon == 5 {
        seq!['J', 'u', 'n']
    } else if mon == 6 {
        seq!['J', 'u', 'l']
    } else if mon == 7 {
        seq!['A', 'u', 'g']
    } else if mon == 8 {
        seq!['S', 'e', 'p']
    } else if mon == 9 {
        seq!['O', 'c', 't']
    } else if mon == 10 {
        seq!['N', 'o', 'v']
    } else {
        seq!['D', 'e', 'c']
    }
}

/// The time of day as `HH:MM:SS`.
pub open spec fn clock_text(t: CalendarTime) -> Seq<char> {
    two_digits(t.hour as int) + seq![':'] + two_digits(t.min as int) + seq![':'] + two_digits(
        t.sec as int,
    )
}

/// The canonical text of `t`: week day, comma, day of the month, month,
/// year, time of day and the zone `GMT`, each separated by one space. The
/// fields are written as they stand: the week day is the one that `t`
/// holds, whatever the date.
pub open spec fn imf_fixdate(t: CalendarTime) -> Seq<char> {
    weekday_name(t.wday as int) + seq![',', ' '] + two_digits(t.mday as int) + seq![' ']
        + month_name(t.mon as int) + seq![' '] + signed_decimal(t.year + 1900) + seq![' ']
        + clock_text(t) + seq![' ', 'G', 'M', 'T']
}

/// Whether the calendar year of `t` takes exactly four digits.
pub open spec fn four_digit_year(t: CalendarTime) -> bool {
    1000 <= t.year + 1900 <= 9999
}

/// A number from 1000 to 9999 is written with exactly four digits.
pub proof fn lemma_decimal_four_digits(n: nat)
    requires
        1000 <= n <= 9999,
    ensures
        decimal(n) == seq![
            digit((n / 1000) as int),
            digit((n / 100 % 10) as int),
            digit((n / 10 % 10) as int),
            digit((n % 10) as int),
        ],
{
    reveal_with_fuel(decimal, 4);
    assert(decimal(n) =~= seq![
        digit((n / 1000) as int),
        digit((n / 100 % 10) as int),
        digit((n / 10 % 10) as int),
        digit((n % 10) as int),
    ]);
}

/// The canonical text has a fixed shape. For a valid calendar time with a
/// four-digit year it is 29 characters long: the week day's name, a comma
/// and a space, two digits of the day, a space, the month's name, a space,
/// four digits of the year, a space, the time of day as two digits each of
/// hours, minutes and seconds with colons between, a space, and `GMT`.
pub proof fn lemma_fixdate_shape(t: CalendarTime)
    requires
        t.valid(),
        four_digit_year(t),
    ensures
        imf_fixdate(t).len() == 29,
        imf_fixdate(t).subrange(0, 3) == weekday_name(t.wday as int),
        imf_fixdate(t)[3] == ',',
        imf_fixdate(t)[4] == ' ',
        imf_fixdate(t).subrange(5, 7) == two_digits(t.mday as int),
        imf_fixdate(t)[7] == ' ',
        imf_fixdate(t).subrange(8, 11) == month_name(t.mon as int),
        imf_fixdate(t)[11] == ' ',
        imf_fixdate(t).subrange(12, 16) == decimal((t.year + 1900) as nat),
        imf_fixdate(t)[16] == ' ',
        imf_fixdate(t).subrange(17, 19) == two_digits(t.hour as int),
        imf_fixdate(t)[19] == ':',
        imf_fixdate(t).subrange(20, 22) == two_digits(t.min as int),
        imf_fixdate(t)[22] == ':',
        imf_fixdate(t).subrange(23, 25) == two_digits(t.sec as int),
        imf_fixdate(t)[25] == ' ',
        imf_fixdate(t).subrange(26, 29) == seq!['G', 'M', 'T'],
        forall|i: int|
            5 <= i < 7 || 12 <= i < 16 || 17 <= i < 19 || 20 <= i < 22 || 23 <= i < 25
                ==> is_digit(#[trigger] imf_fixdate(t)[i]),
{
    let s = imf_fixdate(t);
    lemma_decimal_four_digits((t.year + 1900) as nat);
    assert(s.len() == 29);
    assert(s.subrange(0, 3) =~= weekday_name(t.wday as int));
    assert(s.subrange(5, 7) =~= two_digits(t.mday as int));
    assert(s.subrange(8, 11) =~= month_name(t.mon as int));
    assert(s.subrange(12, 16) =~= decimal((t.year + 1900) as nat));
    assert(s.subrange(17, 19) =~= two_digits(t.hour as int));
    assert(s.subrange(20, 22) =~= two_digits(t.min as int));
    assert(s.subrange(23, 25) =~= two_digits(t.sec as int));
    assert(s.subrange(26, 29) =~= seq!['G', 'M', 'T']);
}

} // verus!
