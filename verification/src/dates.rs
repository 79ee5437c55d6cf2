//! Date-to-year extraction.
//!
//! Every date field in the input schema is a string whose leading four
//! characters are read as a base-10 integer (an optional sign followed by
//! digits, as in `"2023-05-10"`). Strings shorter than four characters, or
//! whose leading characters are not such an integer, yield no year, and the
//! caller falls back to a per-call-site default.

use vstd::prelude::*;

verus! {

/// Holds when `c` is one of the decimal digits `'0'` through `'9'`.
pub open spec fn is_digit_char(c: char) -> bool {
    48 <= c as int <= 57
}

/// The numeric value of a decimal digit character.
pub open spec fn digit_value(c: char) -> int {
    c as int - 48
}

/// The year encoded by the leading four characters of `s`: either four
/// digits, or a sign (`'+'` or `'-'`) followed by three digits. Anything
/// else encodes no year.
pub open spec fn year_of_date(s: Seq<char>) -> Option<int> {
    if s.len() < 4 {
        None
    } else if is_digit_char(s[0]) && is_digit_char(s[1]) && is_digit_char(s[2]) && is_digit_char(
        s[3],
    ) {
        Some(
            1000 * digit_value(s[0]) + 100 * digit_value(s[1]) + 10 * digit_value(s[2])
                + digit_value(s[3]),
        )
    } else if (s[0] == '+' || s[0] == '-') && is_digit_char(s[1]) && is_digit_char(s[2])
        && is_digit_char(s[3]) {
        let magnitude = 100 * digit_value(s[1]) + 10 * digit_value(s[2]) + digit_value(s[3]);
        Some(
            if s[0] == '-' {
                -magnitude
            } else {
                magnitude
            },
        )
    } else {
        None
    }
}

/// Reads the year from the leading four characters of a date string, if
/// they parse as a base-10 integer.
pub fn year_from_date(s: &str) -> (r: Option<i32>)
    ensures
        r matches Some(y) ==> year_of_date(s@) == Some(y as int),
        r is None ==> year_of_date(s@) is None,
{
    let n: usize = s.unicode_len();
    if n < 4 {
        return None;
    }
    let c0: char = s.get_char(0);
    let c1: char = s.get_char(1);
    let c2: char = s.get_char(2);
    let c3: char = s.get_char(3);
    let d0: u32 = c0 as u32;
    let d1: u32 = c1 as u32;
    let d2: u32 = c2 as u32;
    let d3: u32 = c3 as u32;
    let digits123: bool = 48 <= d1 && d1 <= 57 && 48 <= d2 && d2 <= 57 && 48 <= d3 && d3 <= 57;
    if 48 <= d0 && d0 <= 57 && digits123 {
        let year: i32 = 1000 * (d0 as i32 - 48) + 100 * (d1 as i32 - 48) + 10 * (d2 as i32 - 48) + (
        d3 as i32 - 48);
        Some(year)
    } else if (c0 == '+' || c0 == '-') && digits123 {
        let magnitude: i32 = 100 * (d1 as i32 - 48) + 10 * (d2 as i32 - 48) + (d3 as i32 - 48);
        if c0 == '-' {
            Some(-magnitude)
        } else {
            Some(magnitude)
        }
    } else {
        None
    }
}

} // verus!
