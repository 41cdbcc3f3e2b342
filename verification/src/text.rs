//! Decimal text helpers: rendering unsigned integers as decimal strings and
//! parsing decimal strings back, with exact specifications. The protocol
//! carries numbers (status codes, pin numbers, heartbeat parameters) as
//! decimal text inside message bodies.

use vstd::prelude::*;

verus! {

/// The character for one decimal digit value.
pub open spec fn dec_digit_char(d: int) -> char {
    if d == 0 {
        '0'
    } else if d == 1 {
        '1'
    } else if d == 2 {
        '2'
    } else if d == 3 {
        '3'
    } else if d == 4 {
        '4'
    } else if d == 5 {
        '5'
    } else if d == 6 {
        '6'
    } else if d == 7 {
        '7'
    } else if d == 8 {
        '8'
    } else {
        '9'
    }
}

/// The usual decimal rendering of `n`: no sign, no leading zeros (except
/// for zero itself).
pub open spec fn spec_dec(n: nat) -> Seq<char>
    decreases n,
{
    if n < 10 {
        seq![dec_digit_char(n as int)]
    } else {
        spec_dec(n / 10).push(dec_digit_char((n % 10) as int))
    }
}

/// True when `c` is a decimal digit.
pub open spec fn spec_is_digit(c: char) -> bool {
    '0' as u32 <= c as u32 <= '9' as u32
}

/// The numeric value of a digit character.
pub open spec fn spec_digit_val(c: char) -> int {
    c as u32 - '0' as u32
}

/// True when `s` is one or more decimal digits.
pub open spec fn spec_all_digits(s: Seq<char>) -> bool {
    s.len() >= 1 && forall|i: int| 0 <= i < s.len() ==> spec_is_digit(#[trigger] s[i])
}

/// The number denoted by a digit string.
pub open spec fn spec_digits_val(s: Seq<char>) -> int
    decreases s.len(),
{
    if s.len() == 0 {
        0
    } else {
        spec_digits_val(s.drop_last()) * 10 + spec_digit_val(s.last())
    }
}

/// The digit part of a decimal string: everything after an optional
/// leading plus sign.
pub open spec fn spec_digit_part(s: Seq<char>) -> Seq<char> {
    if s.len() >= 1 && s[0] == '+' {
        s.drop_first()
    } else {
        s
    }
}

/// True when `s` parses as an unsigned decimal number no greater than
/// `max`: an optional leading plus sign, then one or more digits denoting
/// a value in range.
pub open spec fn spec_parse_ok(s: Seq<char>, max: int) -> bool {
    spec_all_digits(spec_digit_part(s)) && spec_digits_val(spec_digit_part(s)) <= max
}

/// A digit string denotes a nonnegative number.
pub proof fn lemma_digits_val_nonneg(s: Seq<char>)
    requires
        forall|i: int| 0 <= i < s.len() ==> spec_is_digit(#[trigger] s[i]),
    ensures
        spec_digits_val(s) >= 0,
    decreases s.len(),
{
    if s.len() > 0 {
        assert(forall|i: int|
            0 <= i < s.drop_last().len() ==> spec_is_digit(#[trigger] s.drop_last()[i]));
        lemma_digits_val_nonneg(s.drop_last());
    }
}

/// Extending a digit string by one digit multiplies its value by ten and
/// adds the digit.
pub proof fn lemma_digits_val_step(s: Seq<char>, i: int)
    requires
        0 <= i < s.len(),
    ensures
        spec_digits_val(s.take(i + 1)) == spec_digits_val(s.take(i)) * 10 + spec_digit_val(s[i]),
{
    assert(s.take(i + 1).drop_last() =~= s.take(i));
    assert(s.take(i + 1).last() == s[i]);
}

/// The value of a digit string is at least the value of any of its
/// prefixes.
pub proof fn lemma_digits_val_prefix(s: Seq<char>, i: int)
    requires
        0 <= i <= s.len(),
        forall|j: int| 0 <= j < s.len() ==> spec_is_digit(#[trigger] s[j]),
    ensures
        spec_digits_val(s.take(i)) <= spec_digits_val(s),
    decreases s.len() - i,
{
    if i == s.len() {
        assert(s.take(i) =~= s);
    } else {
        lemma_digits_val_step(s, i);
        lemma_digits_val_nonneg(s.take(i));
        assert(forall|j: int| 0 <= j < s.take(i).len() ==> spec_is_digit(#[trigger] s.take(i)[j]));
        lemma_digits_val_prefix(s, i + 1);
        assert(spec_digits_val(s.take(i)) <= spec_digits_val(s.take(i)) * 10 + spec_digit_val(
            s[i],
        )) by (nonlinear_arith)
            requires
                spec_digits_val(s.take(i)) >= 0,
                spec_digit_val(s[i]) >= 0,
        ;
    }
}

/// Powers of ten.
pub open spec fn pow10(k: nat) -> nat
    decreases k,
{
    if k == 0 {
        1nat
    } else {
        10 * pow10((k - 1) as nat)
    }
}

/// A number below the `k`-th power of ten renders in at most `k` digits.
pub proof fn lemma_dec_len_bound(n: nat, k: nat)
    requires
        k >= 1,
        n < pow10(k),
    ensures
        spec_dec(n).len() <= k,
    decreases n,
{
    if n < 10 {
    } else {
        assert(k >= 2) by {
            if k == 1 {
                assert(pow10(1) == 10 * pow10(0));
            }
        }
        let p = pow10((k - 1) as nat);
        assert(pow10(k) == 10 * p);
        assert(n / 10 < p) by (nonlinear_arith)
            requires
                n < 10 * p,
                n == 10 * (n / 10) + (n % 10),
                n % 10 >= 0,
        ;
        lemma_dec_len_bound(n / 10, (k - 1) as nat);
    }
}

/// Any `u64` renders in at most twenty digits.
pub proof fn lemma_dec_len_u64(n: u64)
    ensures
        spec_dec(n as nat).len() <= 20,
{
    reveal_with_fuel(pow10, 21);
    assert(pow10(20) == 100000000000000000000);
    lemma_dec_len_bound(n as nat, 20);
}

/// Appends the character for one decimal digit to `s`.
pub fn push_digit(s: &mut String, d: u64)
    requires
        d < 10,
    ensures
        final(s)@ == old(s)@.push(dec_digit_char(d as int)),
{
    proof {
        reveal_strlit("0");
        reveal_strlit("1");
        reveal_strlit("2");
        reveal_strlit("3");
        reveal_strlit("4");
        reveal_strlit("5");
        reveal_strlit("6");
        reveal_strlit("7");
        reveal_strlit("8");
        reveal_strlit("9");
    }
    if d == 0 {
        s.append("0");
    } else if d == 1 {
        s.append("1");
    } else if d == 2 {
        s.append("2");
    } else if d == 3 {
        s.append("3");
    } else if d == 4 {
        s.append("4");
    } else if d == 5 {
        s.append("5");
    } else if d == 6 {
        s.append("6");
    } else if d == 7 {
        s.append("7");
    } else if d == 8 {
        s.append("8");
    } else {
        s.append("9");
    }
    proof {
        assert(s@ =~= old(s)@.push(dec_digit_char(d as int)));
    }
}

/// Renders `n` in decimal.
pub fn u64_to_string(n: u64) -> (s: String)
    ensures
        s@ == spec_dec(n as nat),
    decreases n,
{
    if n < 10 {
        let mut s = String::new();
        push_digit(&mut s, n);
        proof {
            assert(s@ =~= spec_dec(n as nat));
        }
        s
    } else {
        let mut s = u64_to_string(n / 10);
        push_digit(&mut s, n % 10);
        s
    }
}

/// Parses `s` as an unsigned decimal number of at most `max`, exactly when
/// it is an optional plus sign followed by digits denoting a value in
/// range.
pub fn parse_dec(s: &str, max: u64) -> (r: Option<u64>)
    ensures
        r is Some <==> spec_parse_ok(s@, max as int),
        r matches Some(v) ==> v <= max && v as int == spec_digits_val(spec_digit_part(s@)),
{
    let len = s.unicode_len();
    let mut start: usize = 0;
    if len >= 1 && s.get_char(0) == '+' {
        start = 1;
    }
    let ghost digits = spec_digit_part(s@);
    proof {
        assert(digits =~= s@.subrange(start as int, len as int));
    }
    if start >= len {
        proof {
            assert(digits.len() == 0);
        }
        return None;
    }
    let mut val: u64 = 0;
    let mut i: usize = start;
    while i < len
        invariant
            start <= i <= len,
            len == s@.len(),
            start == 0 || start == 1,
            digits == spec_digit_part(s@),
            digits == s@.subrange(start as int, len as int),
            digits.len() == len - start,
            forall|j: int| 0 <= j < i - start ==> spec_is_digit(#[trigger] digits[j]),
            val <= max,
            val as int == spec_digits_val(digits.take(i - start)),
        decreases len - i,
    {
        let c = s.get_char(i);
        let cu = c as u32;
        proof {
            assert(digits[i - start] == s@[i as int]);
        }
        if cu < '0' as u32 || cu > '9' as u32 {
            proof {
                assert(!spec_is_digit(digits[i - start]));
                assert(!spec_all_digits(digits));
            }
            return None;
        }
        let d: u64 = (cu - '0' as u32) as u64;
        proof {
            lemma_digits_val_step(digits, i - start);
        }
        if val > max / 10 || (val == max / 10 && d > max % 10) {
            proof {
                let k = i - start;
                assert(val as int * 10 + d > max) by (nonlinear_arith)
                    requires
                        val > max / 10 || (val == max / 10 && d > max % 10),
                        max == 10 * (max / 10) + (max % 10),
                        d < 10,
                ;
                assert(spec_digits_val(digits.take(k + 1)) > max) by (nonlinear_arith)
                    requires
                        spec_digits_val(digits.take(k + 1)) == spec_digits_val(digits.take(k)) * 10
                            + spec_digit_val(digits[k]),
                        spec_digits_val(digits.take(k)) == val as int,
                        spec_digit_val(digits[k]) == d as int,
                        val as int * 10 + d > max,
                ;
                if spec_all_digits(digits) {
                    lemma_digits_val_prefix(digits, k + 1);
                    assert(spec_digits_val(digits) > max);
                }
                assert(!spec_parse_ok(s@, max as int));
            }
            return None;
        }
        proof {
            assert(val as int * 10 + d <= max) by (nonlinear_arith)
                requires
                    val <= max / 10,
                    !(val == max / 10 && d > max % 10),
                    max == 10 * (max / 10) + (max % 10),
                    d < 10,
            ;
        }
        val = 10 * val + d;
        i += 1;
    }
    proof {
        assert(digits.take(i - start) =~= digits);
    }
    Some(val)
}

} // verus!
