//! Decimal numerals: reading the recency threshold from its command-line text
//! and rendering page numbers for the listing request.
use vstd::prelude::*;

verus! {

use vstd::string::StrSliceExecFns;
use vstd::string::StringExecFns;

/// `c` is a decimal digit.
pub open spec fn is_digit(c: char) -> bool {
    48 <= c as int && c as int <= 57
}

/// Numeric value of a digit character.
pub open spec fn digit_val(c: char) -> int {
    c as int - 48
}

/// Every character of `s` is a decimal digit.
pub open spec fn all_digits(s: Seq<char>) -> bool {
    forall|i: int| 0 <= i < s.len() ==> is_digit(#[trigger] s[i])
}

/// Value of a digit string read most-significant digit first.
pub open spec fn digits_val(s: Seq<char>) -> int
    decreases s.len(),
{
    if s.len() == 0 {
        0
    } else {
        10 * digits_val(s.drop_last()) + digit_val(s.last())
    }
}

proof fn lemma_digits_val_nonneg(s: Seq<char>)
    requires
        all_digits(s),
    ensures
        digits_val(s) >= 0,
    decreases s.len(),
{
    if s.len() > 0 {
        assert forall|i: int| 0 <= i < s.drop_last().len() implies is_digit(
            #[trigger] s.drop_last()[i],
        ) by {
            assert(s.drop_last()[i] == s[i]);
        }
        lemma_digits_val_nonneg(s.drop_last());
    }
}

/// The magnitude part of a signed numeral: everything after an optional
/// leading `+` or `-`.
pub open spec fn magnitude_part(s: Seq<char>) -> Seq<char> {
    if s.len() > 0 && (s[0] == '+' || s[0] == '-') {
        s.skip(1)
    } else {
        s
    }
}

/// `s` begins with a minus sign.
pub open spec fn is_negative_numeral(s: Seq<char>) -> bool {
    s.len() > 0 && s[0] == '-'
}

/// `s` is exactly what the standard integer parser accepts for an `i64`:
/// an optional `+` or `-` sign, then one or more decimal digits, naming a
/// value in the range of an `i64`.
pub open spec fn is_i64_numeral(s: Seq<char>) -> bool {
    magnitude_part(s).len() > 0 && all_digits(magnitude_part(s)) && (if is_negative_numeral(s) {
        digits_val(magnitude_part(s)) <= 0x8000_0000_0000_0000
    } else {
        digits_val(magnitude_part(s)) <= 0x7fff_ffff_ffff_ffff
    })
}

/// Value named by an `i64` numeral.
pub open spec fn i64_numeral_val(s: Seq<char>) -> int {
    if is_negative_numeral(s) {
        -digits_val(magnitude_part(s))
    } else {
        digits_val(magnitude_part(s))
    }
}

/// Parse `s` as an `i64`: an optional sign followed by one or more decimal
/// digits, rejecting anything else and any value out of range.
pub fn parse_i64(s: &str) -> (r: Option<i64>)
    ensures
        r is Some <==> is_i64_numeral(s@),
        r is Some ==> r->0 == i64_numeral_val(s@),
{
    let n: usize = s.unicode_len();
    let mut idx: usize = 0;
    let mut neg: bool = false;
    if n > 0 {
        let c0: char = s.get_char(0);
        if c0 == '+' {
            idx = 1;
        } else if c0 == '-' {
            neg = true;
            idx = 1;
        }
    }
    let ghost mag: Seq<char> = magnitude_part(s@);
    proof {
        assert(mag =~= s@.subrange(idx as int, n as int));
    }
    if idx >= n {
        // empty input, or a bare sign with no digits
        return None;
    }
    let limit: u64 = if neg {
        9223372036854775808u64
    } else {
        9223372036854775807u64
    };
    let mut acc: u64 = 0;
    let mut too_big: bool = false;
    let mut i: usize = idx;
    while i < n
        invariant
            idx <= i <= n,
            n == s@.len(),
            idx < n,
            mag == magnitude_part(s@),
            mag =~= s@.subrange(idx as int, n as int),
            neg == is_negative_numeral(s@),
            limit == (if neg {
                0x8000_0000_0000_0000u64
            } else {
                0x7fff_ffff_ffff_ffffu64
            }),
            all_digits(mag.take(i - idx)),
            !too_big ==> acc == digits_val(mag.take(i - idx)) && acc <= limit,
            too_big ==> digits_val(mag.take(i - idx)) > limit,
        decreases n - i,
    {
        let c: char = s.get_char(i);
        let v: u32 = c as u32;
        if v < 48 || v > 57 {
            proof {
                assert(v as int == c as int);
                assert(mag[i - idx] == s@[i as int]);
                assert(!is_digit(mag[i - idx]));
                assert(0 <= i - idx < mag.len());
                assert(!all_digits(mag));
            }
            return None;
        }
        let d: u64 = (v - 48) as u64;
        proof {
            assert(mag.take(i + 1 - idx).drop_last() =~= mag.take(i - idx));
            assert(mag.take(i + 1 - idx).last() == mag[i - idx]);
            assert(mag[i - idx] == s@[i as int]);
            assert forall|j: int| 0 <= j < i + 1 - idx implies is_digit(
                #[trigger] mag.take(i + 1 - idx)[j],
            ) by {
                assert(mag.take(i + 1 - idx)[j] == mag.take(i - idx + 1)[j]);
            }
        }
        if too_big {
            proof {
                assert(digits_val(mag.take(i + 1 - idx)) == 10 * digits_val(mag.take(i - idx))
                    + digit_val(mag[i - idx]));
            }
        } else {
            let wide: u128 = (acc as u128) * 10 + (d as u128);
            if wide > limit as u128 {
                too_big = true;
            } else {
                acc = wide as u64;
            }
        }
        i = i + 1;
    }
    proof {
        assert(mag.take(i - idx) =~= mag);
    }
    if too_big {
        return None;
    }
    if neg {
        let val: i64 = (0i128 - acc as i128) as i64;
        Some(val)
    } else {
        let val: i64 = acc as i64;
        Some(val)
    }
}

/// The recency threshold named on the command line: a string that does not
/// parse as an integer silently becomes the default of 365 days.
pub fn days_threshold_arg(s: &str) -> (r: i64)
    ensures
        is_i64_numeral(s@) ==> r == i64_numeral_val(s@),
        !is_i64_numeral(s@) ==> r == 365,
{
    match parse_i64(s) {
        Some(v) => v,
        None => 365,
    }
}

fn digit_str(d: u32) -> (r: &'static str)
    requires
        d < 10,
    ensures
        r@.len() == 1,
        is_digit(r@[0]),
        digit_val(r@[0]) == d as int,
{
    proof {
        reveal_strlit("0");
        reveal_strlit("1");
        reveal_strlit("2");
        reveal_strlit("3");
        reveal_strlit("4");
        reveal_strlit("5");
        reveal_strlit("6");
        reveal_strlit("7");
        reveal_strlit("8");
        reveal_strlit("9");
    }
    if d == 0 {
        "0"
    } else if d == 1 {
        "1"
    } else if d == 2 {
        "2"
    } else if d == 3 {
        "3"
    } else if d == 4 {
        "4"
    } else if d == 5 {
        "5"
    } else if d == 6 {
        "6"
    } else if d == 7 {
        "7"
    } else if d == 8 {
        "8"
    } else {
        "9"
    }
}

/// Decimal rendering of `n`: one or more digits, no leading zero except for
/// `"0"` itself, reading back as `n`.
pub fn u32_to_decimal(n: u32) -> (r: String)
    ensures
        all_digits(r@),
        r@.len() >= 1,
        digits_val(r@) == n,
        r@.len() > 1 ==> digit_val(r@[0]) != 0,
    decreases n,
{
    if n < 10 {
        let rs: &str = digit_str(n);
        let r: String = rs.to_owned();
        proof {
            assert(digits_val(Seq::<char>::empty()) == 0);
            assert(r@.drop_last() =~= Seq::<char>::empty());
            assert(r@.last() == r@[0]);
        }
        r
    } else {
        proof {
            assert(n / 10 < n && n / 10 >= 1) by (nonlinear_arith)
                requires
                    n >= 10,
            ;
        }
        let mut s: String = u32_to_decimal(n / 10);
        let ghost sv: Seq<char> = s@;
        let ds: &str = digit_str(n % 10);
        s.append(ds);
        proof {
            assert(s@.drop_last() =~= sv);
            assert(s@.last() == ds@[0]);
            assert(n == 10 * (n / 10) + n % 10);
            assert forall|j: int| 0 <= j < s@.len() implies is_digit(#[trigger] s@[j]) by {
                if j < sv.len() {
                    assert(s@[j] == sv[j]);
                } else {
                    assert(s@[j] == ds@[0]);
                }
            }
            assert(s@[0] == sv[0]);
            if sv.len() == 1 {
                assert(digits_val(Seq::<char>::empty()) == 0);
                assert(sv.drop_last() =~= Seq::<char>::empty());
                assert(sv.last() == sv[0]);
                assert(digits_val(sv) == digit_val(sv[0]));
            }
        }
        s
    }
}

} // verus!
