//! Decimal digits in ASCII: what a run of digit bytes is worth, and how a number is written out
//! as zero-padded digits. These definitions are what the CAT field parsers and formatters are
//! stated against.

use vstd::prelude::*;

verus! {

/// `b` is an ASCII decimal digit, `0` through `9`.
pub open spec fn is_digit(b: u8) -> bool {
    0x30 <= b && b <= 0x39
}

/// The numeric value of an ASCII digit.
pub open spec fn digit_value(b: u8) -> nat {
    (b - 0x30) as nat
}

/// Every byte of `s` is an ASCII decimal digit.
pub open spec fn all_digits(s: Seq<u8>) -> bool {
    forall|i: int| 0 <= i < s.len() ==> is_digit(#[trigger] s[i])
}

/// The number of decimal digits that `s` starts with.
pub open spec fn digit_run(s: Seq<u8>) -> nat
    decreases s.len(),
{
    if s.len() == 0 {
        0
    } else if is_digit(s[0]) {
        1 + digit_run(s.drop_first())
    } else {
        0
    }
}

/// The value of `s` read as a decimal numeral, most significant digit first.
pub open spec fn digits_value(s: Seq<u8>) -> nat
    decreases s.len(),
{
    if s.len() == 0 {
        0
    } else {
        digits_value(s.drop_last()) * 10 + digit_value(s.last())
    }
}

/// The value of the run of digits that `s` starts with.
pub open spec fn leading_value(s: Seq<u8>) -> nat {
    digits_value(s.take(digit_run(s) as int))
}

/// `10` to the power `k`.
pub open spec fn pow10(k: nat) -> nat
    decreases k,
{
    if k == 0 {
        1
    } else {
        10 * pow10((k - 1) as nat)
    }
}

/// The number of digits needed to write `n` in decimal (one for zero).
pub open spec fn num_digits(n: nat) -> nat
    decreases n,
{
    if n < 10 {
        1
    } else {
        1 + num_digits(n / 10)
    }
}

/// The last `k` decimal digits of `n`, as ASCII, most significant first.
pub open spec fn decimal_of_len(n: nat, k: nat) -> Seq<u8>
    decreases k,
{
    if k == 0 {
        Seq::empty()
    } else {
        decimal_of_len(n / 10, (k - 1) as nat).push((0x30 + n % 10) as u8)
    }
}

/// `n` in decimal ASCII, zero-padded on the left to at least `width` digits.
pub open spec fn padded_decimal(n: nat, width: nat) -> Seq<u8> {
    decimal_of_len(n, if width > num_digits(n) { width } else { num_digits(n) })
}

/// `n` in decimal ASCII with no padding.
pub open spec fn decimal(n: nat) -> Seq<u8> {
    padded_decimal(n, 0)
}

pub proof fn lemma_digit_run(s: Seq<u8>)
    ensures
        digit_run(s) <= s.len(),
        forall|i: int| 0 <= i < digit_run(s) ==> is_digit(#[trigger] s[i]),
        digit_run(s) < s.len() ==> !is_digit(s[digit_run(s) as int]),
        all_digits(s) <==> digit_run(s) == s.len(),
    decreases s.len(),
{
    if s.len() > 0 && is_digit(s[0]) {
        let t = s.drop_first();
        lemma_digit_run(t);
        assert forall|i: int| 0 <= i < digit_run(s) implies is_digit(#[trigger] s[i]) by {
            if i > 0 {
                assert(s[i] == t[i - 1]);
            }
        }
        if all_digits(s) {
            assert forall|i: int| 0 <= i < t.len() implies is_digit(#[trigger] t[i]) by {
                assert(t[i] == s[i + 1]);
            }
        }
        if digit_run(s) < s.len() {
            assert(s[digit_run(s) as int] == t[digit_run(t) as int]);
        }
    }
}

/// Appending one digit multiplies the value by ten and adds the digit.
pub proof fn lemma_digits_value_take_step(s: Seq<u8>, i: int)
    requires
        0 <= i < s.len(),
    ensures
        digits_value(s.take(i + 1)) == digits_value(s.take(i)) * 10 + digit_value(s[i]),
{
    assert(s.take(i + 1).drop_last() =~= s.take(i));
}

/// The value of a prefix never exceeds the value of a longer prefix.
pub proof fn lemma_digits_value_prefix_le(s: Seq<u8>, i: int, j: int)
    requires
        0 <= i <= j <= s.len(),
    ensures
        digits_value(s.take(i)) <= digits_value(s.take(j)),
    decreases j - i,
{
    if i < j {
        lemma_digits_value_prefix_le(s, i, j - 1);
        lemma_digits_value_take_step(s, j - 1);
    }
}

pub proof fn lemma_pow10_positive(k: nat)
    ensures
        pow10(k) > 0,
    decreases k,
{
    if k > 0 {
        lemma_pow10_positive((k - 1) as nat);
    }
}

pub proof fn lemma_pow10_monotone(i: nat, j: nat)
    requires
        i <= j,
    ensures
        pow10(i) <= pow10(j),
    decreases j,
{
    if i < j {
        lemma_pow10_monotone(i, (j - 1) as nat);
        lemma_pow10_positive((j - 1) as nat);
    }
}

pub proof fn lemma_num_digits_bound(n: nat)
    ensures
        n < pow10(num_digits(n)),
        num_digits(n) >= 1,
    decreases n,
{
    if n >= 10 {
        lemma_num_digits_bound(n / 10);
        assert(n < 10 * (n / 10) + 10);
    } else {
        assert(pow10(1) == 10) by {
            reveal_with_fuel(pow10, 2);
        }
    }
}

/// The last `k` digits of `n` are digits, and read back as `n` modulo `10^k`.
pub proof fn lemma_decimal_of_len(n: nat, k: nat)
    ensures
        decimal_of_len(n, k).len() == k,
        all_digits(decimal_of_len(n, k)),
        digits_value(decimal_of_len(n, k)) == n % pow10(k),
    decreases k,
{
    if k > 0 {
        let d = decimal_of_len(n / 10, (k - 1) as nat);
        lemma_decimal_of_len(n / 10, (k - 1) as nat);
        let s = decimal_of_len(n, k);
        assert(s.drop_last() =~= d);
        assert forall|i: int| 0 <= i < s.len() implies is_digit(#[trigger] s[i]) by {
            if i < s.len() - 1 {
                assert(s[i] == d[i]);
            }
        }
        lemma_pow10_positive((k - 1) as nat);
        let p = pow10((k - 1) as nat);
        vstd::arithmetic::div_mod::lemma_mod_breakdown(n as int, 10, p as int);
        assert(n % (10 * p) == 10 * ((n / 10) % p) + n % 10);
    }
}

/// Writing `n` with at least `width` digits and reading the digits back gives `n`.
pub proof fn lemma_padded_decimal_value(n: nat, width: nat)
    ensures
        all_digits(padded_decimal(n, width)),
        digits_value(padded_decimal(n, width)) == n,
        padded_decimal(n, width).len() == if width > num_digits(n) {
            width
        } else {
            num_digits(n)
        },
        padded_decimal(n, width).len() >= 1,
{
    let k = if width > num_digits(n) {
        width
    } else {
        num_digits(n)
    };
    lemma_decimal_of_len(n, k);
    lemma_num_digits_bound(n);
    lemma_pow10_monotone(num_digits(n), k);
    vstd::arithmetic::div_mod::lemma_small_mod(n, pow10(k));
}

/// A sequence made only of digits is all leading digits.
pub proof fn lemma_all_digits_leading_value(s: Seq<u8>)
    requires
        all_digits(s),
    ensures
        leading_value(s) == digits_value(s),
        digit_run(s) == s.len(),
{
    lemma_digit_run(s);
    assert(s.take(s.len() as int) =~= s);
}

/// A number below `10^k` needs at most `k` digits.
pub proof fn lemma_num_digits_le(n: nat, k: nat)
    requires
        n < pow10(k),
        k >= 1,
    ensures
        num_digits(n) <= k,
    decreases k,
{
    if n >= 10 {
        if k == 1 {
            assert(pow10(1) == 10) by {
                reveal_with_fuel(pow10, 2);
            }
        } else {
            lemma_num_digits_le(n / 10, (k - 1) as nat);
        }
    }
}

pub proof fn lemma_num_digits_u64(n: u64)
    ensures
        num_digits(n as nat) <= 20,
{
    assert(pow10(20) == 100000000000000000000nat) by {
        reveal_with_fuel(pow10, 21);
    }
    lemma_num_digits_le(n as nat, 20);
}

/// A numeral of `k` digits is worth less than `10^k`.
pub proof fn lemma_digits_value_bound(s: Seq<u8>)
    requires
        all_digits(s),
    ensures
        digits_value(s) < pow10(s.len()),
    decreases s.len(),
{
    if s.len() > 0 {
        let t = s.drop_last();
        assert forall|i: int| 0 <= i < t.len() implies is_digit(#[trigger] t[i]) by {
            assert(t[i] == s[i]);
        }
        lemma_digits_value_bound(t);
        assert(is_digit(s[s.len() - 1]));
    }
}

/// The leading digits of `s` are worth less than `10^len`.
pub proof fn lemma_leading_value_bound(s: Seq<u8>)
    ensures
        leading_value(s) < pow10(s.len()),
{
    lemma_digit_run(s);
    let t = s.take(digit_run(s) as int);
    assert forall|i: int| 0 <= i < t.len() implies is_digit(#[trigger] t[i]) by {
        assert(t[i] == s[i]);
    }
    lemma_digits_value_bound(t);
    lemma_pow10_monotone(t.len(), s.len());
}

/// The powers of ten that field widths use.
pub proof fn lemma_pow10_values()
    ensures
        pow10(1) == 10,
        pow10(2) == 100,
        pow10(3) == 1000,
        pow10(4) == 10000,
        pow10(5) == 100000,
        pow10(6) == 1000000,
        pow10(8) == 100000000,
        pow10(11) == 100000000000,
{
    reveal_with_fuel(pow10, 12);
}

/// The number of decimal digits of `n`.
pub fn decimal_len(n: u64) -> (k: usize)
    ensures
        k == num_digits(n as nat),
        1 <= k <= 20,
    decreases n,
{
    proof {
        lemma_num_digits_u64(n);
        lemma_num_digits_bound(n as nat);
    }
    if n < 10 {
        1
    } else {
        1 + decimal_len(n / 10)
    }
}

/// The last `k` decimal digits of `n`, as ASCII, most significant first.
pub fn decimal_digits_of_len(n: u64, k: usize) -> (r: Vec<u8>)
    ensures
        r@ == decimal_of_len(n as nat, k as nat),
    decreases k,
{
    if k == 0 {
        Vec::new()
    } else {
        let mut v = decimal_digits_of_len(n / 10, k - 1);
        v.push(0x30u8 + (n % 10) as u8);
        v
    }
}

/// A numeral is read most significant digit first, each ASCII digit `0` to `9` worth 0 to 9:
/// appending a digit multiplies the value by ten and adds the digit.
pub proof fn lemma_decimal_reading(s: Seq<u8>, b: u8)
    requires
        0x30 <= b <= 0x39,
    ensures
        digits_value(seq![b]) == b - 0x30,
        digits_value(s.push(b)) == digits_value(s) * 10 + (b - 0x30),
        digits_value(Seq::<u8>::empty()) == 0,
{
    assert(seq![b].drop_last() =~= Seq::<u8>::empty());
    assert(digits_value(Seq::<u8>::empty()) == 0);
    assert(seq![b].last() == b);
    assert(digits_value(seq![b]) == digits_value(seq![b].drop_last()) * 10 + digit_value(b));
    assert(s.push(b).drop_last() =~= s);
}

} // verus!
