//! Student identifiers: `0`, a two-digit enrolment year (in the ROC
//! calendar, no later than the current one), a two-digit hexadecimal
//! department, a class digit `0` or `1`, and a two-digit seat number from
//! `01` to `99`.

use chrono::Datelike;
use vstd::prelude::*;
use vstd::string::StrSliceExecFns;

verus! {

/// The value of `c` as a digit in base `radix` (10 or 16; letters of
/// either case count in base 16).
pub open spec fn digit_value(c: char, radix: u32) -> Option<int> {
    if '0' <= c <= '9' {
        Some(c as int - '0' as int)
    } else if radix == 16 && 'a' <= c <= 'f' {
        Some(c as int - 'a' as int + 10)
    } else if radix == 16 && 'A' <= c <= 'F' {
        Some(c as int - 'A' as int + 10)
    } else {
        None
    }
}

/// The number that the two characters `c0 c1` spell in base `radix`, as
/// std's unsigned integer parsing reads it: two digits, or `+` and a digit.
pub open spec fn two_digit_value(c0: char, c1: char, radix: u32) -> Option<int> {
    if c0 == '+' {
        digit_value(c1, radix)
    } else {
        match (digit_value(c0, radix), digit_value(c1, radix)) {
            (Some(a), Some(b)) => Some(a * radix + b),
            _ => None,
        }
    }
}

/// Whether `s` is a valid student identifier when the current ROC year, in
/// its last two digits, is `year_bound`.
pub open spec fn valid_student_id(s: Seq<char>, year_bound: int) -> bool {
    &&& s.len() == 8
    &&& s[0] == '0'
    &&& two_digit_value(s[1], s[2], 10) matches Some(y) && y <= year_bound
    &&& two_digit_value(s[3], s[4], 16) is Some
    &&& '0' <= s[5] <= '1'
    &&& two_digit_value(s[6], s[7], 10) matches Some(n) && 1 <= n <= 99
}

fn digit_of(c: char, radix: u32) -> (r: Option<u32>)
    requires
        radix == 10 || radix == 16,
    ensures
        match digit_value(c, radix) {
            Some(v) => r == Some(v as u32),
            None => r is None,
        },
{
    if '0' <= c && c <= '9' {
        Some((c as u32) - ('0' as u32))
    } else if radix == 16 && 'a' <= c && c <= 'f' {
        Some((c as u32) - ('a' as u32) + 10)
    } else if radix == 16 && 'A' <= c && c <= 'F' {
        Some((c as u32) - ('A' as u32) + 10)
    } else {
        None
    }
}

fn two_digits(c0: char, c1: char, radix: u32) -> (r: Option<u32>)
    requires
        radix == 10 || radix == 16,
    ensures
        match two_digit_value(c0, c1, radix) {
            Some(v) => r == Some(v as u32),
            None => r is None,
        },
{
    if c0 == '+' {
        return digit_of(c1, radix);
    }
    match (digit_of(c0, radix), digit_of(c1, radix)) {
        (Some(a), Some(b)) => {
            assert(a * radix + b <= 255) by (nonlinear_arith)
                requires
                    a < radix,
                    b < radix,
                    radix <= 16,
            ;
            Some(a * radix + b)
        },
        _ => None,
    }
}

/// Checks `student_id` against the rules, with `year_bound` the last two
/// digits of the current ROC year.
pub fn student_id_valid_in(student_id: &str, year_bound: u8) -> (r: bool)
    ensures
        r == valid_student_id(student_id@, year_bound as int),
{
    if student_id.unicode_len() != 8 {
        return false;
    }
    if student_id.get_char(0) != '0' {
        return false;
    }
    match two_digits(student_id.get_char(1), student_id.get_char(2), 10) {
        Some(y) => {
            if y > year_bound as u32 {
                return false;
            }
        },
        None => {
            return false;
        },
    }
    if two_digits(student_id.get_char(3), student_id.get_char(4), 16).is_none() {
        return false;
    }
    let class = student_id.get_char(5);
    if !('0' <= class && class <= '1') {
        return false;
    }
    match two_digits(student_id.get_char(6), student_id.get_char(7), 10) {
        Some(n) => 1 <= n && n <= 99,
        None => false,
    }
}

/// Relies on chrono's `Local::now` and `Datelike::year`: the current year in
/// the machine's time zone, which depends on the clock.
#[verifier::external_body]
fn local_year() -> (r: i32) {
    chrono::Local::now().year()
}

/// The last two digits of the current ROC year (Gregorian year minus 1911).
pub open spec fn roc_year_bound(gregorian_year: i32) -> int {
    ((gregorian_year - 1911) as u8) as int % 100
}

/// The last two digits of the current ROC year on this machine's clock.
pub fn current_year_bound() -> (r: u8)
    ensures
        exists|year: i32| r as int == roc_year_bound(year),
{
    let year = local_year();
    let roc: i64 = year as i64 - 1911;
    let bound: u8 = (roc as u8) % 100;
    assert(bound as int == roc_year_bound(year));
    bound
}

/// Checks `student_id` against the rules for the current year on this
/// machine's clock: whatever year the clock gives, the answer is the one
/// `valid_student_id` gives for it.
pub fn check_student_id(student_id: &str) -> (r: bool)
    ensures
        exists|year: i32| r == valid_student_id(student_id@, roc_year_bound(year)),
{
    let bound = current_year_bound();
    student_id_valid_in(student_id, bound)
}

} // verus!
