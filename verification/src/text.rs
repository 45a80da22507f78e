//! Text utilities for descriptive attributes.
//!
//! Attribute values are strings; numeric facets (capacity, time bounds, fees,
//! ticket numbers) are written as plain decimal digits and read back by
//! parsing. Both directions are specified against the same mathematical
//! model, `digits_val`, so writing a number and parsing it again provably
//! round-trips.

use vstd::prelude::*;

verus! {

/// Whether `c` is a decimal digit.
pub open spec fn is_digit(c: char) -> bool {
    48 <= (c as u32) <= 57
}

/// The numeric value of a digit character (0 for anything below '0').
pub open spec fn digit_val(c: char) -> nat {
    ((c as u32) - 48) as nat
}

/// Every character of `s` is a decimal digit.
pub open spec fn all_digits(s: Seq<char>) -> bool {
    forall|i: int| 0 <= i < s.len() ==> is_digit(s[i])
}

/// The number denoted by a digit string, most significant digit first.
pub open spec fn digits_val(s: Seq<char>) -> nat
    decreases s.len(),
{
    if s.len() == 0 {
        0
    } else {
        digits_val(s.drop_last()) * 10 + digit_val(s.last())
    }
}

/// What parsing a decimal string as a `u64` yields: the denoted number, if
/// the string is nonempty, all digits, and the number fits.
pub open spec fn spec_parse_u64(s: Seq<char>) -> Option<u64> {
    if s.len() > 0 && all_digits(s) && digits_val(s) <= u64::MAX {
        Some(digits_val(s) as u64)
    } else {
        None
    }
}

/// What parsing a decimal string as a `u32` yields.
pub open spec fn spec_parse_u32(s: Seq<char>) -> Option<u32> {
    if s.len() > 0 && all_digits(s) && digits_val(s) <= u32::MAX {
        Some(digits_val(s) as u32)
    } else {
        None
    }
}

/// The digit character for `d` (recommended only for `d < 10`).
pub open spec fn digit_char(d: nat) -> char {
    if d == 0 {
        '0'
    } else if d == 1 {
        '1'
    } else if d == 2 {
        '2'
    } else if d == 3 {
        '3'
    } else if d == 4 {
        '4'
    } else if d == 5 {
        '5'
    } else if d == 6 {
        '6'
    } else if d == 7 {
        '7'
    } else if d == 8 {
        '8'
    } else {
        '9'
    }
}

/// The canonical decimal rendering of `n`: no sign, no leading zero except
/// for zero itself.
pub open spec fn spec_digits_of(n: nat) -> Seq<char>
    decreases n,
{
    if n < 10 {
        seq![digit_char(n)]
    } else {
        spec_digits_of(n / 10).push(digit_char(n % 10))
    }
}

/// The digit character for `d` is a digit and denotes `d`.
proof fn lemma_digit_char_val(d: nat)
    requires
        d < 10,
    ensures
        is_digit(digit_char(d)),
        digit_val(digit_char(d)) == d,
{
    assert('0' as u32 == 48);
    assert('1' as u32 == 49);
    assert('2' as u32 == 50);
    assert('3' as u32 == 51);
    assert('4' as u32 == 52);
    assert('5' as u32 == 53);
    assert('6' as u32 == 54);
    assert('7' as u32 == 55);
    assert('8' as u32 == 56);
    assert('9' as u32 == 57);
}

/// Extending a digit prefix by one character multiplies its value by ten and
/// adds the new digit.
proof fn lemma_digits_val_extend(s: Seq<char>, i: int)
    requires
        0 <= i < s.len(),
    ensures
        digits_val(s.take(i + 1)) == digits_val(s.take(i)) * 10 + digit_val(s[i]),
{
    assert(s.take(i + 1).drop_last() =~= s.take(i));
    assert(s.take(i + 1).last() == s[i]);
}

/// The value of a digit string never drops below the value of any prefix.
proof fn lemma_digits_val_prefix_le(s: Seq<char>, i: int)
    requires
        0 <= i <= s.len(),
    ensures
        digits_val(s.take(i)) <= digits_val(s),
    decreases s.len() - i,
{
    if i == s.len() {
        assert(s.take(i) =~= s);
    } else {
        lemma_digits_val_extend(s, i);
        lemma_digits_val_prefix_le(s, i + 1);
    }
}

/// Parses a nonempty all-digit string as a `u64`; anything else is `None`.
pub fn parse_u64(s: &str) -> (r: Option<u64>)
    ensures
        r == spec_parse_u64(s@),
{
    let n = s.unicode_len();
    if n == 0 {
        return None;
    }
    let mut acc: u64 = 0;
    let mut i: usize = 0;
    while i < n
        invariant
            0 <= i <= n,
            n == s@.len(),
            all_digits(s@.take(i as int)),
            acc == digits_val(s@.take(i as int)),
        decreases n - i,
    {
        let c = s.get_char(i);
        let v = c as u32;
        if v < 48 || v > 57 {
            assert(!is_digit(s@[i as int]));
            return None;
        }
        let d: u64 = (v - 48) as u64;
        let wide: u128 = acc as u128 * 10 + d as u128;
        proof {
            lemma_digits_val_extend(s@, i as int);
        }
        if wide > u64::MAX as u128 {
            proof {
                lemma_digits_val_prefix_le(s@, i + 1);
            }
            return None;
        }
        acc = wide as u64;
        assert(all_digits(s@.take(i + 1))) by {
            assert(forall|j: int| 0 <= j < i + 1 ==> s@.take(i + 1)[j] == s@[j]);
        }
        i = i + 1;
    }
    proof {
        assert(s@.take(n as int) =~= s@);
    }
    Some(acc)
}

/// Parses a nonempty all-digit string as a `u32`; anything else is `None`.
pub fn parse_u32(s: &str) -> (r: Option<u32>)
    ensures
        r == spec_parse_u32(s@),
{
    match parse_u64(s) {
        Some(v) => {
            if v <= u32::MAX as u64 {
                Some(v as u32)
            } else {
                None
            }
        },
        None => {
            proof {
                if s@.len() > 0 && all_digits(s@) && digits_val(s@) <= u32::MAX {
                    assert(digits_val(s@) <= u64::MAX);
                }
            }
            None
        },
    }
}

/// Appends the digit character for `d` to `s`.
fn append_digit(s: &mut String, d: u64)
    requires
        d < 10,
    ensures
        final(s)@ == old(s)@.push(digit_char(d as nat)),
{
    match d {
        0 => {
            proof {
                reveal_strlit("0");
            }
            s.append("0");
            assert(s@ =~= old(s)@.push('0'));
        },
        1 => {
            proof {
                reveal_strlit("1");
            }
            s.append("1");
            assert(s@ =~= old(s)@.push('1'));
        },
        2 => {
            proof {
                reveal_strlit("2");
            }
            s.append("2");
            assert(s@ =~= old(s)@.push('2'));
        },
        3 => {
            proof {
                reveal_strlit("3");
            }
            s.append("3");
            assert(s@ =~= old(s)@.push('3'));
        },
        4 => {
            proof {
                reveal_strlit("4");
            }
            s.append("4");
            assert(s@ =~= old(s)@.push('4'));
        },
        5 => {
            proof {
                reveal_strlit("5");
            }
            s.append("5");
            assert(s@ =~= old(s)@.push('5'));
        },
        6 => {
            proof {
                reveal_strlit("6");
            }
            s.append("6");
            assert(s@ =~= old(s)@.push('6'));
        },
        7 => {
            proof {
                reveal_strlit("7");
            }
            s.append("7");
            assert(s@ =~= old(s)@.push('7'));
        },
        8 => {
            proof {
                reveal_strlit("8");
            }
            s.append("8");
            assert(s@ =~= old(s)@.push('8'));
        },
        _ => {
            proof {
                reveal_strlit("9");
            }
            s.append("9");
            assert(s@ =~= old(s)@.push('9'));
        },
    }
}

/// Appends the decimal rendering of `n` to `s`.
fn append_u64(s: &mut String, n: u64)
    ensures
        final(s)@ == old(s)@ + spec_digits_of(n as nat),
    decreases n,
{
    if n < 10 {
        append_digit(s, n);
        assert(s@ =~= old(s)@ + spec_digits_of(n as nat));
    } else {
        append_u64(s, n / 10);
        append_digit(s, n % 10);
        assert(s@ =~= old(s)@ + spec_digits_of(n as nat));
    }
}

/// Renders `n` as its canonical decimal string.
pub fn format_u64(n: u64) -> (s: String)
    ensures
        s@ == spec_digits_of(n as nat),
{
    let mut s = String::new();
    append_u64(&mut s, n);
    proof {
        assert(s@ =~= spec_digits_of(n as nat));
    }
    s
}

/// The canonical rendering consists of digits only and is nonempty.
pub proof fn lemma_digits_of_wf(n: nat)
    ensures
        spec_digits_of(n).len() > 0,
        all_digits(spec_digits_of(n)),
    decreases n,
{
    if n < 10 {
    } else {
        lemma_digits_of_wf(n / 10);
        assert forall|i: int| 0 <= i < spec_digits_of(n).len() implies is_digit(
            spec_digits_of(n)[i],
        ) by {
            if i < spec_digits_of(n / 10).len() {
                assert(is_digit(spec_digits_of(n / 10)[i]));
            }
        }
    }
}

/// The canonical rendering denotes the number it was made from.
pub proof fn lemma_digits_of_val(n: nat)
    ensures
        digits_val(spec_digits_of(n)) == n,
    decreases n,
{
    if n < 10 {
        lemma_digit_char_val(n);
        let s = spec_digits_of(n);
        assert(s =~= seq![digit_char(n)]);
        assert(s.drop_last() =~= Seq::<char>::empty());
        assert(s.last() == digit_char(n));
        assert(digits_val(s) == digits_val(Seq::<char>::empty()) * 10 + digit_val(digit_char(n)));
    } else {
        lemma_digits_of_val(n / 10);
        lemma_digit_char_val(n % 10);
        let s = spec_digits_of(n);
        assert(s =~= spec_digits_of(n / 10).push(digit_char(n % 10)));
        assert(s.drop_last() =~= spec_digits_of(n / 10));
        assert(s.last() == digit_char(n % 10));
        assert(digits_val(s) == (n / 10) * 10 + n % 10);
        assert(n == (n / 10) * 10 + n % 10) by (nonlinear_arith);
    }
}

/// Writing a number and parsing it again gives the number back.
pub proof fn lemma_u64_roundtrip(n: u64)
    ensures
        spec_parse_u64(spec_digits_of(n as nat)) == Some(n),
{
    lemma_digits_of_wf(n as nat);
    lemma_digits_of_val(n as nat);
}

/// Writing a number that fits in a `u32` and parsing it as one gives the
/// number back.
pub proof fn lemma_u32_roundtrip(n: u64)
    requires
        n <= u32::MAX,
    ensures
        spec_parse_u32(spec_digits_of(n as nat)) == Some(n as u32),
{
    lemma_digits_of_wf(n as nat);
    lemma_digits_of_val(n as nat);
}

/// Character-for-character string equality, specified over the views.
pub fn str_eq(a: &str, b: &str) -> (r: bool)
    ensures
        r == (a@ == b@),
{
    let alen = a.unicode_len();
    let blen = b.unicode_len();
    if alen != blen {
        return false;
    }
    let mut i: usize = 0;
    while i < alen
        invariant
            0 <= i <= alen,
            alen == a@.len(),
            alen == b@.len(),
            forall|j: int| 0 <= j < i ==> a@[j] == b@[j],
        decreases alen - i,
    {
        if a.get_char(i) != b.get_char(i) {
            return false;
        }
        i = i + 1;
    }
    proof {
        assert(a@ =~= b@);
    }
    true
}

} // verus!
