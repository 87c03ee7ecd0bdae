//! The `date-time` format validator: checks that a string is an ISO-8601 /
//! RFC-3339 style date-time, `YYYY-MM-DDThh:mm:ss`, optionally followed by a
//! fractional-seconds part, and closed by `Z` or a `+hh:mm` / `-hh:mm`
//! offset.

use vstd::prelude::*;
use crate::error::{ErrorModel, ValidationError};
use crate::scope::Scope;
use crate::validators::{StateModel, ValidationState, Validator};
use crate::value::Value;

verus! {

pub open spec fn is_digit(c: char) -> bool {
    '0' <= c && c <= '9'
}

/// Numeric value of a decimal digit character.
pub open spec fn digit_val(c: char) -> int {
    c as int - '0' as int
}

/// Value of the two-digit number written at positions `i`, `i + 1`.
pub open spec fn val2(s: Seq<char>, i: int) -> int {
    digit_val(s[i]) * 10 + digit_val(s[i + 1])
}

/// From position `i` the string ends in a zone designator: either a single
/// `Z`, or a sign and a two-digit hour and minute offset.
pub open spec fn is_offset_at(s: Seq<char>, i: int) -> bool {
    ||| (s.len() == i + 1 && s[i] == 'Z')
    ||| (s.len() == i + 6 && (s[i] == '+' || s[i] == '-') && is_digit(s[i + 1]) && is_digit(
        s[i + 2],
    ) && val2(s, i + 1) <= 23 && s[i + 3] == ':' && is_digit(s[i + 4]) && is_digit(s[i + 5])
        && val2(s, i + 4) <= 59)
}

/// Position `i` holds a digit; after it run zero or more further digits and
/// then a zone designator.
pub open spec fn frac_digits_then_offset(s: Seq<char>, i: int) -> bool
    decreases s.len() - i,
{
    if i + 1 < s.len() && is_digit(s[i + 1]) {
        frac_digits_then_offset(s, i + 1)
    } else {
        is_offset_at(s, i + 1)
    }
}

/// From position `i` the string ends in an optional fractional-seconds part
/// (a dot and at least one digit) followed by a zone designator.
pub open spec fn is_suffix_at(s: Seq<char>, i: int) -> bool {
    ||| is_offset_at(s, i)
    ||| (i + 1 < s.len() && s[i] == '.' && is_digit(s[i + 1]) && frac_digits_then_offset(s, i + 1))
}

/// The date-time grammar accepted by the `date-time` format: a four-digit
/// year, month `01`-`12`, day `01`-`31`, `T`, hour `00`-`23`, minute and
/// second `00`-`59`, then [`is_suffix_at`] from position 19.
pub open spec fn is_date_time(s: Seq<char>) -> bool {
    &&& s.len() >= 20
    &&& is_digit(s[0])
    &&& is_digit(s[1])
    &&& is_digit(s[2])
    &&& is_digit(s[3])
    &&& s[4] == '-'
    &&& is_digit(s[5])
    &&& is_digit(s[6])
    &&& 1 <= val2(s, 5) <= 12
    &&& s[7] == '-'
    &&& is_digit(s[8])
    &&& is_digit(s[9])
    &&& 1 <= val2(s, 8) <= 31
    &&& s[10] == 'T'
    &&& is_digit(s[11])
    &&& is_digit(s[12])
    &&& val2(s, 11) <= 23
    &&& s[13] == ':'
    &&& is_digit(s[14])
    &&& is_digit(s[15])
    &&& val2(s, 14) <= 59
    &&& s[16] == ':'
    &&& is_digit(s[17])
    &&& is_digit(s[18])
    &&& val2(s, 17) <= 59
    &&& is_suffix_at(s, 19)
}

fn digit_at(s: &str, i: usize) -> (r: bool)
    requires
        i < s@.len(),
    ensures
        r == is_digit(s@[i as int]),
{
    let c = s.get_char(i);
    '0' <= c && c <= '9'
}

fn char_at_is(s: &str, i: usize, c: char) -> (r: bool)
    requires
        i < s@.len(),
    ensures
        r == (s@[i as int] == c),
{
    s.get_char(i) == c
}

fn val2_at(s: &str, i: usize) -> (r: u32)
    requires
        i < usize::MAX,
        i + 1 < s@.len(),
        is_digit(s@[i as int]),
        is_digit(s@[(i + 1) as int]),
    ensures
        r == val2(s@, i as int),
{
    let c1 = s.get_char(i);
    let c2 = s.get_char(i + 1);
    (c1 as u32 - '0' as u32) * 10 + (c2 as u32 - '0' as u32)
}

fn check_offset_at(s: &str, i: usize, n: usize) -> (r: bool)
    requires
        n == s@.len(),
        i <= n,
    ensures
        r == is_offset_at(s@, i as int),
{
    let rem = n - i;
    if rem == 1 {
        char_at_is(s, i, 'Z')
    } else if rem == 6 {
        let c = s.get_char(i);
        if !(c == '+' || c == '-') {
            return false;
        }
        if !(digit_at(s, i + 1) && digit_at(s, i + 2)) {
            return false;
        }
        if val2_at(s, i + 1) > 23 {
            return false;
        }
        if !char_at_is(s, i + 3, ':') {
            return false;
        }
        if !(digit_at(s, i + 4) && digit_at(s, i + 5)) {
            return false;
        }
        val2_at(s, i + 4) <= 59
    } else {
        false
    }
}

fn check_suffix_at(s: &str, i: usize, n: usize) -> (r: bool)
    requires
        n == s@.len(),
        i <= n,
    ensures
        r == is_suffix_at(s@, i as int),
{
    if check_offset_at(s, i, n) {
        return true;
    }
    if n - i > 1 {
        if s.get_char(i) == '.' && digit_at(s, i + 1) {
            let mut j: usize = i + 1;
            loop
                invariant
                    i + 1 <= j < n,
                    n == s@.len(),
                    is_digit(s@[j as int]),
                    frac_digits_then_offset(s@, (i + 1) as int) == frac_digits_then_offset(
                        s@,
                        j as int,
                    ),
                ensures
                    i + 1 <= j < n,
                    n == s@.len(),
                    frac_digits_then_offset(s@, (i + 1) as int) == frac_digits_then_offset(
                        s@,
                        j as int,
                    ),
                    !(j + 1 < n && is_digit(s@[(j + 1) as int])),
                decreases n - j,
            {
                if !(j + 1 < n) {
                    break;
                }
                if !digit_at(s, j + 1) {
                    break;
                }
                j += 1;
            }
            check_offset_at(s, j + 1, n)
        } else {
            false
        }
    } else {
        false
    }
}

/// Whether `s` conforms to the accepted date-time grammar.
pub fn check_date_time(s: &str) -> (r: bool)
    ensures
        r == is_date_time(s@),
{
    let n = s.unicode_len();
    if n < 20 {
        return false;
    }
    let shape_ok = digit_at(s, 0) && digit_at(s, 1) && digit_at(s, 2) && digit_at(s, 3)
        && char_at_is(s, 4, '-') && digit_at(s, 5) && digit_at(s, 6) && char_at_is(s, 7, '-')
        && digit_at(s, 8) && digit_at(s, 9) && char_at_is(s, 10, 'T') && digit_at(s, 11)
        && digit_at(s, 12) && char_at_is(s, 13, ':') && digit_at(s, 14) && digit_at(s, 15)
        && char_at_is(s, 16, ':') && digit_at(s, 17) && digit_at(s, 18);
    if !shape_ok {
        return false;
    }
    let month = val2_at(s, 5);
    if month < 1 || month > 12 {
        return false;
    }
    let day = val2_at(s, 8);
    if day < 1 || day > 31 {
        return false;
    }
    if val2_at(s, 11) > 23 {
        return false;
    }
    if val2_at(s, 14) > 59 {
        return false;
    }
    if val2_at(s, 17) > 59 {
        return false;
    }
    check_suffix_at(s, 19, n)
}

/// The compiled validator of the `date-time` format discriminator.
#[derive(Debug, Clone, Copy, PartialEq, Eq, Structural)]
pub struct DateTime;

/// The description carried by a date-time conformance error.
pub open spec fn date_time_detail() -> Seq<char> {
    "Malformed date-time string"@
}

/// Result of the date-time validator: a string that does not conform yields
/// one format error; a conforming string, or any non-string value, yields
/// the empty state (type mismatches are another keyword's concern).
pub open spec fn date_time_result(item: Value, path: Seq<char>) -> StateModel {
    match item {
        Value::Str(s) => if is_date_time(s@) {
            StateModel::empty()
        } else {
            StateModel {
                errors: seq![ErrorModel::Format { path: path, detail: date_time_detail() }],
                missing: Seq::empty(),
            }
        },
        _ => StateModel::empty(),
    }
}

impl Validator for DateTime {
    open spec fn spec_result(&self, item: Value, path: Seq<char>, scope: Scope) -> StateModel {
        date_time_result(item, path)
    }

    fn validate(&self, item: &Value, path: &str, scope: &Scope) -> (r: ValidationState) {
        match item.as_str() {
            Some(s) => {
                if check_date_time(s) {
                    ValidationState::new()
                } else {
                    let mut st = ValidationState::new();
                    st.errors.push(
                        ValidationError::Format {
                            path: path.to_owned(),
                            detail: "Malformed date-time string".to_owned(),
                        },
                    );
                    proof {
                        assert(st@.errors =~= seq![
                            ErrorModel::Format { path: path@, detail: date_time_detail() },
                        ]);
                        assert(st@.missing =~= Seq::<Seq<char>>::empty());
                    }
                    st
                }
            },
            None => ValidationState::new(),
        }
    }
}

} // verus!
