//! Amounts of money, counted in cents: how they are read from a command and
//! how they are written for the ledger.

use crate::text::{chars_of, digit_char, digit_str};
use vstd::prelude::*;
use vstd::string::StringExecFns;

verus! {

/// Whether `c` is one of the digits `0` to `9`.
pub open spec fn is_ascii_digit(c: char) -> bool {
    '0' <= c <= '9'
}

/// What the digit `c` counts, 0 for any other character.
pub open spec fn digit_value(c: char) -> nat {
    if is_ascii_digit(c) {
        (c as u32 - 48) as nat
    } else {
        0
    }
}

/// Whether `s` holds nothing but digits.
pub open spec fn all_digits(s: Seq<char>) -> bool {
    forall|i: int| 0 <= i < s.len() ==> is_ascii_digit(#[trigger] s[i])
}

/// The number that the digits of `s` write in base ten.
pub open spec fn decimal_value(s: Seq<char>) -> nat
    decreases s.len(),
{
    if s.len() == 0 {
        0
    } else {
        10 * decimal_value(s.drop_last()) + digit_value(s.last())
    }
}

/// The amount that `s` writes, in cents: digits, then at most a point with
/// one or two digits behind it. `None` for any other text.
pub open spec fn amount_cents(s: Seq<char>) -> Option<nat> {
    let n = s.len() as int;
    if n >= 1 && all_digits(s) {
        Some(100 * decimal_value(s))
    } else if n >= 3 && s[n - 2] == '.' && all_digits(s.take(n - 2)) && is_ascii_digit(s[n - 1]) {
        Some(100 * decimal_value(s.take(n - 2)) + 10 * digit_value(s[n - 1]))
    } else if n >= 4 && s[n - 3] == '.' && all_digits(s.take(n - 3)) && is_ascii_digit(s[n - 2])
        && is_ascii_digit(s[n - 1]) {
        Some(100 * decimal_value(s.take(n - 3)) + 10 * digit_value(s[n - 2]) + digit_value(s[n - 1]))
    } else {
        None
    }
}

/// The amount that `s` writes, where it fits the machine's 64 bits.
pub open spec fn amount_cents_u64(s: Seq<char>) -> Option<u64> {
    match amount_cents(s) {
        Some(cents) if cents <= u64::MAX => Some(cents as u64),
        _ => None,
    }
}

/// A longer run of digits writes no smaller number than its beginning.
pub proof fn lemma_decimal_value_grows(s: Seq<char>, k: int)
    requires
        0 <= k <= s.len(),
    ensures
        decimal_value(s.take(k)) <= decimal_value(s),
    decreases s.len() - k,
{
    if k == s.len() {
        assert(s.take(k) =~= s);
    } else {
        lemma_decimal_value_grows(s.drop_last(), k);
        assert(s.drop_last().take(k) =~= s.take(k));
    }
}

/// The number that the first `len` characters write, where all of them are
/// digits and the number fits `u64`.
fn parse_digits(chars: &Vec<char>, len: usize) -> (value: Option<u64>)
    requires
        len <= chars.len(),
    ensures
        value matches Some(v) ==> all_digits(chars@.take(len as int)) && v == decimal_value(
            chars@.take(len as int),
        ),
        value is None ==> !all_digits(chars@.take(len as int)) || decimal_value(
            chars@.take(len as int),
        ) > u64::MAX,
{
    let ghost run = chars@.take(len as int);
    let mut value: u64 = 0;
    let mut i: usize = 0;
    while i < len
        invariant
            run == chars@.take(len as int),
            i <= len <= chars.len(),
            all_digits(run.take(i as int)),
            value == decimal_value(run.take(i as int)),
        decreases len - i,
    {
        let c = chars[i];
        if !(c >= '0' && c <= '9') {
            assert(!is_ascii_digit(run[i as int]));
            return None;
        }
        let digit: u64 = (c as u32 - 48) as u64;
        proof {
            let longer = run.take(i + 1);
            assert(longer.drop_last() =~= run.take(i as int));
            assert(longer.last() == c);
            assert(decimal_value(longer) == 10 * value + digit);
            lemma_decimal_value_grows(run, i + 1);
            assert forall|k: int| 0 <= k < longer.len() implies is_ascii_digit(
                #[trigger] longer[k],
            ) by {
                if k < i {
                    assert(longer[k] == run.take(i as int)[k]);
                }
            }
        }
        let scaled = match value.checked_mul(10) {
            Some(scaled) => scaled,
            None => { return None; },
        };
        value = match scaled.checked_add(digit) {
            Some(sum) => sum,
            None => { return None; },
        };
        i += 1;
    }
    assert(run.take(len as int) =~= run);
    Some(value)
}

/// Reads an amount in cents. `None` where `text` is no amount or the amount
/// is beyond `u64`.
pub fn parse_amount(text: &str) -> (cents: Option<u64>)
    ensures
        cents == amount_cents_u64(text@),
{
    let chars = chars_of(text);
    let n: usize = chars.len();
    let fraction_len: usize = if n >= 3 && chars[n - 2] == '.' {
        1
    } else if n >= 4 && chars[n - 3] == '.' {
        2
    } else {
        0
    };
    let whole_len: usize = if fraction_len == 0 {
        n
    } else {
        n - fraction_len - 1
    };
    proof {
        if fraction_len == 0 {
            assert(text@.take(n as int) =~= text@);
        } else {
            assert(!is_ascii_digit(text@[n - fraction_len - 1]));
        }
    }
    if whole_len == 0 {
        return None;
    }
    let whole: u64 = match parse_digits(&chars, whole_len) {
        Some(whole) => whole,
        None => { return None; },
    };
    let fraction: u64 = if fraction_len == 0 {
        0
    } else if fraction_len == 1 {
        let c = chars[n - 1];
        if !(c >= '0' && c <= '9') {
            return None;
        }
        ((c as u32 - 48) * 10) as u64
    } else {
        let c = chars[n - 2];
        let d = chars[n - 1];
        if !(c >= '0' && c <= '9' && d >= '0' && d <= '9') {
            return None;
        }
        ((c as u32 - 48) * 10 + (d as u32 - 48)) as u64
    };
    match whole.checked_mul(100) {
        Some(scaled) => scaled.checked_add(fraction),
        None => None,
    }
}

/// The digits that write `n` in base ten, without leading zeros.
pub open spec fn decimal_text(n: nat) -> Seq<char>
    decreases n,
{
    if n < 10 {
        seq![digit_char(n as int)]
    } else {
        decimal_text(n / 10).push(digit_char((n % 10) as int))
    }
}

/// An amount of `cents` as the ledger reads it: the units, a point, and two
/// digits of cents.
pub open spec fn amount_text(cents: nat) -> Seq<char> {
    decimal_text(cents / 100) + seq![
        '.',
        digit_char((cents / 10 % 10) as int),
        digit_char((cents % 10) as int),
    ]
}

/// The digits of a number are digits, and they write that number.
pub proof fn lemma_decimal_text_writes(n: nat)
    ensures
        decimal_text(n).len() >= 1,
        all_digits(decimal_text(n)),
        decimal_value(decimal_text(n)) == n,
    decreases n,
{
    let text = decimal_text(n);
    if n < 10 {
        assert(text.drop_last() =~= Seq::<char>::empty());
        assert(decimal_value(text.drop_last()) == 0);
    } else {
        lemma_decimal_text_writes(n / 10);
        assert(text.drop_last() =~= decimal_text(n / 10));
        assert forall|i: int| 0 <= i < text.len() implies is_ascii_digit(#[trigger] text[i]) by {
            if i < text.len() - 1 {
                assert(text[i] == decimal_text(n / 10)[i]);
            }
        }
    }
}

/// A digit's character is a digit that counts the same.
pub proof fn lemma_digit_char_counts(d: int)
    requires
        0 <= d < 10,
    ensures
        is_ascii_digit(digit_char(d)),
        digit_value(digit_char(d)) == d,
{
}

/// Units, tens of cents and cents make up the amount.
proof fn lemma_cents_split(cents: nat)
    ensures
        0 <= cents / 10 % 10 < 10,
        0 <= cents % 10 < 10,
        100 * (cents / 100) + 10 * (cents / 10 % 10) + cents % 10 == cents,
{
}

/// An amount is written so that it reads back as itself: what the ledger is
/// sent is what the command said.
pub proof fn lemma_amount_text_reads_back(cents: nat)
    ensures
        amount_cents(amount_text(cents)) == Some(cents),
{
    let whole = decimal_text(cents / 100);
    let tens = (cents / 10 % 10) as int;
    let ones = (cents % 10) as int;
    let text = amount_text(cents);
    let n = text.len() as int;
    lemma_decimal_text_writes(cents / 100);
    lemma_cents_split(cents);
    lemma_digit_char_counts(tens);
    lemma_digit_char_counts(ones);
    assert(text == whole + seq!['.', digit_char(tens), digit_char(ones)]);
    assert(n == whole.len() + 3);
    assert(text[n - 3] == '.');
    assert(text[n - 2] == digit_char(tens));
    assert(text[n - 1] == digit_char(ones));
    assert(text.take(n - 3) =~= whole);
    assert(!all_digits(text)) by {
        assert(!is_ascii_digit(text[n - 3]));
    }
    assert(text[n - 2] != '.');
}

fn append_decimal(text: &mut String, n: u64)
    ensures
        final(text)@ == old(text)@ + decimal_text(n as nat),
    decreases n,
{
    if n >= 10 {
        append_decimal(text, n / 10);
    }
    text.append(digit_str((n % 10) as u8));
    assert(text@ =~= old(text)@ + decimal_text(n as nat));
}

/// Appends the amount as the ledger reads it.
pub fn append_amount(text: &mut String, cents: u64)
    ensures
        final(text)@ == old(text)@ + amount_text(cents as nat),
{
    proof {
        reveal_strlit(".");
    }
    append_decimal(text, cents / 100);
    text.append(".");
    text.append(digit_str((cents / 10 % 10) as u8));
    text.append(digit_str((cents % 10) as u8));
    assert(text@ =~= old(text)@ + amount_text(cents as nat));
}

} // verus!
