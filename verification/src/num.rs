//! Decimal printing and parsing for the integers that the cache layer
//! stores as strings: counter values, entity ids and user ids.

use vstd::prelude::*;
use vstd::string::StrSliceExecFns;
use vstd::string::StringExecFns;

verus! {

/// The character for a single decimal digit.
pub open spec fn digit_char(d: int) -> char {
    (48 + d) as char
}

/// Does this character stand for a decimal digit?
pub open spec fn is_digit_char(c: char) -> bool {
    48 <= c as int <= 57
}

/// The numeric value of a digit character.
pub open spec fn digit_val(c: char) -> int {
    c as int - 48
}

/// The decimal digit string of a natural number, most significant digit
/// first, with no sign and no leading zeros (except for zero itself).
pub open spec fn udec(n: nat) -> Seq<char>
    decreases n,
{
    if n < 10 {
        seq![digit_char(n as int)]
    } else {
        udec(n / 10).push(digit_char((n % 10) as int))
    }
}

/// The decimal string of an integer: the digit string of its magnitude,
/// preceded by a minus sign when it is negative.
pub open spec fn dec_chars(n: int) -> Seq<char> {
    if n >= 0 {
        udec(n as nat)
    } else {
        seq!['-'] + udec((-n) as nat)
    }
}

/// A non-empty string of decimal digits.
pub open spec fn is_dec_digits(s: Seq<char>) -> bool {
    s.len() > 0 && (forall|i: int| 0 <= i < s.len() ==> is_digit_char(#[trigger] s[i]))
}

/// The value of a digit string, most significant digit first.
pub open spec fn digits_val(s: Seq<char>) -> int
    decreases s.len(),
{
    if s.len() == 0 {
        0
    } else {
        digits_val(s.drop_last()) * 10 + digit_val(s.last())
    }
}

/// The integer a string of characters denotes, if any: an optional sign
/// followed by at least one digit, as Rust's integer parser accepts it.
pub open spec fn parse_dec(s: Seq<char>) -> Option<int> {
    if is_dec_digits(s) {
        Some(digits_val(s))
    } else if s.len() > 1 && s[0] == '-' && is_dec_digits(s.skip(1)) {
        Some(-digits_val(s.skip(1)))
    } else if s.len() > 1 && s[0] == '+' && is_dec_digits(s.skip(1)) {
        Some(digits_val(s.skip(1)))
    } else {
        None
    }
}

/// What parsing a string as an `i64` yields: the denoted integer when it
/// exists and fits, nothing otherwise.
pub open spec fn parse_i64_spec(s: Seq<char>) -> Option<i64> {
    match parse_dec(s) {
        Some(v) => if i64::MIN <= v <= i64::MAX {
            Some(v as i64)
        } else {
            None
        },
        None => None,
    }
}

/// A digit string denotes a non-negative value.
pub proof fn lemma_digits_val_nonneg(s: Seq<char>)
    requires
        forall|i: int| 0 <= i < s.len() ==> is_digit_char(#[trigger] s[i]),
    ensures
        digits_val(s) >= 0,
    decreases s.len(),
{
    if s.len() > 0 {
        lemma_digits_val_nonneg(s.drop_last());
    }
}

/// Extending a digit string multiplies its value by ten and adds the new
/// digit, so the value never shrinks.
pub proof fn lemma_digits_val_extend(s: Seq<char>, i: int)
    requires
        0 <= i < s.len(),
        forall|j: int| 0 <= j <= i ==> is_digit_char(#[trigger] s[j]),
    ensures
        digits_val(s.take(i + 1)) == digits_val(s.take(i)) * 10 + digit_val(s[i]),
        digits_val(s.take(i + 1)) >= digits_val(s.take(i)),
{
    assert(s.take(i + 1).drop_last() =~= s.take(i));
    assert(s.take(i + 1).last() == s[i]);
    lemma_digits_val_nonneg(s.take(i));
    assert(digit_val(s[i]) >= 0);
}

/// The digit string of a natural number consists of digits and reads back
/// to the same number.
pub proof fn lemma_udec_val(n: nat)
    ensures
        is_dec_digits(udec(n)),
        digits_val(udec(n)) == n,
        udec(n)[0] != '-' && udec(n)[0] != '+',
    decreases n,
{
    if n < 10 {
        assert(udec(n) =~= seq![digit_char(n as int)]);
        assert(is_digit_char(digit_char(n as int)));
        assert(udec(n).drop_last() =~= Seq::<char>::empty());
        assert(digits_val(Seq::<char>::empty()) == 0);
        assert(udec(n).last() == digit_char(n as int));
        assert(digits_val(udec(n)) == digit_val(digit_char(n as int)));
    } else {
        lemma_udec_val(n / 10);
        let s = udec(n);
        assert(s =~= udec(n / 10).push(digit_char((n % 10) as int)));
        assert(s.drop_last() =~= udec(n / 10));
        assert(digits_val(s) == (n / 10) * 10 + (n % 10));
        assert((n / 10) * 10 + (n % 10) == n) by (nonlinear_arith);
    }
}

/// Printing an `i64` and parsing the result gives the value back.
pub proof fn lemma_dec_roundtrip(n: i64)
    ensures
        parse_i64_spec(dec_chars(n as int)) == Some(n),
{
    if n >= 0 {
        lemma_udec_val(n as nat);
    } else {
        let mag = (-(n as int)) as nat;
        lemma_udec_val(mag);
        let s = dec_chars(n as int);
        assert(s == seq!['-'] + udec(mag));
        assert(s[0] == '-');
        assert(!is_digit_char('-'));
        assert(!is_dec_digits(s));
        assert(s.skip(1) =~= udec(mag));
        assert(parse_dec(s) == Some(-digits_val(udec(mag))));
    }
}

/// The string for one decimal digit.
fn digit_str(d: u64) -> (r: &'static str)
    requires
        d < 10,
    ensures
        r@ =~= seq![digit_char(d as int)],
{
    proof {
        reveal_strlit("0");
        reveal_strlit("1");
        reveal_strlit("2");
        reveal_strlit("3");
        reveal_strlit("4");
        reveal_strlit("5");
        reveal_strlit("6");
        reveal_strlit("7");
        reveal_strlit("8");
        reveal_strlit("9");
    }
    match d {
        0 => "0",
        1 => "1",
        2 => "2",
        3 => "3",
        4 => "4",
        5 => "5",
        6 => "6",
        7 => "7",
        8 => "8",
        _ => "9",
    }
}

/// The decimal digit string of a `u64`.
pub fn u64_to_string(n: u64) -> (r: String)
    ensures
        r@ == udec(n as nat),
    decreases n,
{
    if n < 10 {
        let r = digit_str(n).to_owned();
        proof {
            assert(r@ =~= udec(n as nat));
        }
        r
    } else {
        let mut s = u64_to_string(n / 10);
        s.append(digit_str(n % 10));
        proof {
            assert(s@ =~= udec(n as nat));
        }
        s
    }
}

/// The decimal string of an `i64`, with a minus sign when negative.
pub fn i64_to_string(n: i64) -> (r: String)
    ensures
        r@ == dec_chars(n as int),
{
    if n >= 0 {
        u64_to_string(n as u64)
    } else {
        let mag: u64 = ((-(n + 1)) as u64) + 1;
        proof {
            assert(mag as int == -(n as int));
        }
        let mut s = "-".to_owned();
        let digits = u64_to_string(mag);
        s.append(digits.as_str());
        proof {
            reveal_strlit("-");
            assert(s@ =~= dec_chars(n as int));
        }
        s
    }
}

/// Parses a string as an `i64` exactly as the standard parser does:
/// an optional sign, then digits, rejecting anything else and any value
/// outside the `i64` range.
pub fn parse_i64(s: &str) -> (r: Option<i64>)
    ensures
        r == parse_i64_spec(s@),
{
    let len = s.unicode_len();
    if len == 0 {
        return None;
    }
    let first = s.get_char(0);
    let (neg, start): (bool, usize) = if first == '-' {
        (true, 1)
    } else if first == '+' {
        (false, 1)
    } else {
        (false, 0)
    };
    if len == start {
        proof {
            if start == 1 {
                assert(s@.skip(1).len() == 0);
            }
        }
        return None;
    }
    let ghost digits: Seq<char> = s@.skip(start as int);
    let mut mag: u64 = 0;
    let mut i: usize = start;
    let mut overflow = false;
    while i < len
        invariant
            start <= i <= len,
            len == s@.len(),
            start == 0 || start == 1,
            start == 1 ==> s@[0] == '-' || s@[0] == '+',
            start == 1 ==> (neg <==> s@[0] == '-'),
            start == 0 ==> s@[0] != '-' && s@[0] != '+',
            neg ==> start == 1,
            digits == s@.skip(start as int),
            digits.len() == len - start,
            forall|j: int| 0 <= j < i - start ==> is_digit_char(#[trigger] digits[j]),
            !overflow ==> mag == digits_val(digits.take(i - start)),
            overflow ==> digits_val(digits.take(i - start)) > u64::MAX,
        decreases len - i,
    {
        let c = s.get_char(i);
        proof {
            assert(digits[i - start] == s@[i as int]);
        }
        if !(c >= '0' && c <= '9') {
            proof {
                assert(!is_digit_char(digits[i - start]));
                assert(!is_dec_digits(digits));
                assert(!is_dec_digits(s@)) by {
                    if start == 0 {
                        assert(digits =~= s@);
                    } else {
                        assert(s@[0] == '-' || s@[0] == '+');
                        assert(!is_digit_char(s@[0]));
                    }
                }
            }
            return None;
        }
        let d: u64 = (c as u32 as u64) - 48;
        proof {
            assert(is_digit_char(digits[i - start]));
            assert(d == digit_val(digits[i - start]));
            lemma_digits_val_extend(digits, i - start);
        }
        if overflow || mag > (u64::MAX - d) / 10 {
            proof {
                if !overflow {
                    assert(mag * 10 + d > u64::MAX) by (nonlinear_arith)
                        requires
                            mag > (u64::MAX - d) / 10,
                            d < 10,
                    ;
                }
                lemma_digits_val_nonneg(digits.take(i - start));
                assert(digits_val(digits.take(i - start + 1)) > u64::MAX) by {
                    if !overflow {
                    } else {
                        assert(digits_val(digits.take(i - start + 1))
                            >= digits_val(digits.take(i - start)));
                    }
                }
            }
            overflow = true;
            mag = 0;
        } else {
            mag = mag * 10 + d;
        }
        i += 1;
    }
    proof {
        assert(digits.take(i - start) =~= digits);
        assert(is_dec_digits(digits));
        if start == 0 {
            assert(digits =~= s@);
        } else {
            assert(s@.skip(1) == digits);
        }
    }
    if overflow {
        proof {
            assert(digits_val(digits) > u64::MAX >= i64::MAX);
            assert(-digits_val(digits) < i64::MIN);
        }
        return None;
    }
    if neg {
        if mag > 9223372036854775808u64 {
            return None;
        }
        if mag == 9223372036854775808u64 {
            Some(i64::MIN)
        } else {
            Some(-(mag as i64))
        }
    } else {
        if mag > 9223372036854775807u64 {
            return None;
        }
        Some(mag as i64)
    }
}

/// Parses a decimal string the way the cache layer does everywhere an
/// unparsable value is tolerated: such a value counts as zero.
pub fn string_to_i64(str: &String) -> (r: i64)
    ensures
        r == match parse_i64_spec(str@) {
            Some(v) => v,
            None => 0i64,
        },
{
    match parse_i64(str.as_str()) {
        Some(v) => v,
        None => 0,
    }
}

} // verus!
