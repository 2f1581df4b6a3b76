//! Upper-case hexadecimal numerals of the least length.

use vstd::prelude::*;
use vstd::string::*;

verus! {

/// The sixteen digits, in order of their worth.
pub open spec fn hex_alphabet() -> Seq<char> {
    seq!['0', '1', '2', '3', '4', '5', '6', '7', '8', '9', 'A', 'B', 'C', 'D', 'E', 'F']
}

/// The digit that stands for `d`, for `d` below sixteen.
pub open spec fn hex_digit(d: int) -> char
    recommends
        0 <= d < 16,
{
    hex_alphabet()[d]
}

/// The numeral of `n`: its digits in base sixteen, the most significant
/// first, as few as `n` needs. Zero is written `0`.
pub open spec fn hex_upper(n: nat) -> Seq<char>
    decreases n,
{
    if n < 16 {
        seq![hex_digit(n as int)]
    } else {
        hex_upper(n / 16).push(hex_digit((n % 16) as int))
    }
}

/// The worth of one digit; sixteen for a character that is no digit.
pub open spec fn digit_worth(c: char) -> nat {
    if hex_alphabet().contains(c) {
        hex_alphabet().index_of(c) as nat
    } else {
        16
    }
}

/// The number that a sequence of digits denotes, read in base sixteen.
pub open spec fn hex_worth(digits: Seq<char>) -> nat
    decreases digits.len(),
{
    if digits.len() == 0 {
        0
    } else {
        hex_worth(digits.drop_last()) * 16 + digit_worth(digits.last())
    }
}

/// Every character of a numeral is one of the sixteen digits.
pub open spec fn all_hex_digits(digits: Seq<char>) -> bool {
    forall|i: int| 0 <= i < digits.len() ==> hex_alphabet().contains(#[trigger] digits[i])
}

/// The digit `hex_digit(d)` is worth `d`.
pub proof fn lemma_digit_worth(d: int)
    requires
        0 <= d < 16,
    ensures
        hex_alphabet().contains(hex_digit(d)),
        digit_worth(hex_digit(d)) == d,
{
    let alphabet = hex_alphabet();
    assert(alphabet[d] == hex_digit(d));
    assert(alphabet.no_duplicates());
    alphabet.index_of_first_ensures(hex_digit(d));
    let k = alphabet.index_of(hex_digit(d));
    assert(0 <= k < 16 && alphabet[k] == alphabet[d]);
}

/// A numeral holds digits only, at least one of them, and denotes the number
/// it was made from.
pub proof fn lemma_hex_upper_denotes(n: nat)
    ensures
        hex_upper(n).len() >= 1,
        all_hex_digits(hex_upper(n)),
        hex_worth(hex_upper(n)) == n,
    decreases n,
{
    if n < 16 {
        lemma_digit_worth(n as int);
        let s = hex_upper(n);
        assert(s.drop_last() =~= Seq::<char>::empty());
        assert(hex_worth(s.drop_last()) == 0);
    } else {
        lemma_hex_upper_denotes(n / 16);
        lemma_digit_worth((n % 16) as int);
        let head = hex_upper(n / 16);
        let s = hex_upper(n);
        assert(s.drop_last() =~= head);
        assert(s.last() == hex_digit((n % 16) as int));
    }
}

/// A numeral has no padding: it starts with `0` only where it is `0` itself.
pub proof fn lemma_hex_upper_no_padding(n: nat)
    ensures
        hex_upper(n)[0] == '0' ==> n == 0,
        n == 0 ==> hex_upper(n) == seq!['0'],
    decreases n,
{
    if n < 16 {
        lemma_digit_worth(n as int);
        lemma_digit_worth(0);
    } else {
        lemma_hex_upper_no_padding(n / 16);
        lemma_hex_upper_denotes(n / 16);
    }
}

/// The text of one digit.
fn hex_digit_str(d: u8) -> (s: &'static str)
    requires
        d < 16,
    ensures
        s@ == seq![hex_digit(d as int)],
{
    let table: &'static str = "0123456789ABCDEF";
    proof {
        reveal_strlit("0123456789ABCDEF");
        assert(table@ =~= hex_alphabet());
    }
    let digit = table.substring_ascii(d as usize, d as usize + 1);
    assert(digit@ =~= seq![hex_digit(d as int)]);
    digit
}

/// Appends the numeral of `value` to `out`.
pub fn push_hex(out: &mut String, value: u64)
    ensures
        final(out)@ == old(out)@ + hex_upper(value as nat),
    decreases value,
{
    if value >= 16 {
        push_hex(out, value / 16);
    }
    let digit = hex_digit_str((value % 16) as u8);
    out.append(digit);
    assert(out@ =~= old(out)@ + hex_upper(value as nat));
}

/// The numeral of `value` as a string.
pub fn to_hex(value: u64) -> (s: String)
    ensures
        s@ == hex_upper(value as nat),
{
    let mut s = String::new();
    push_hex(&mut s, value);
    assert(s@ =~= hex_upper(value as nat));
    s
}

} // verus!
