//! Bytes and text: comparing names, appending to an output buffer, and
//! writing a count in decimal.

use vstd::prelude::*;
use vstd::utf8::*;

verus! {

/// The bytes that stand for a text in the output: its UTF-8 encoding.
pub open spec fn text_bytes(text: Seq<char>) -> Seq<u8> {
    encode_utf8(text)
}

/// Two texts with the same bytes are the same text.
pub proof fn text_bytes_injective(a: Seq<char>, b: Seq<char>)
    requires
        text_bytes(a) == text_bytes(b),
    ensures
        a == b,
{
    encode_utf8_decode_utf8(a);
    encode_utf8_decode_utf8(b);
}

/// Whether two strings hold the same text.
pub fn str_eq(a: &str, b: &str) -> (same: bool)
    ensures
        same == (a@ == b@),
{
    let left = a.as_bytes();
    let right = b.as_bytes();
    if left.len() != right.len() {
        return false;
    }
    let mut i: usize = 0;
    while i < left.len()
        invariant
            i <= left.len(),
            left.len() == right.len(),
            left@ == text_bytes(a@),
            right@ == text_bytes(b@),
            forall|j: int| 0 <= j < i ==> left@[j] == right@[j],
        decreases left.len() - i,
    {
        if left[i] != right[i] {
            return false;
        }
        i += 1;
    }
    proof {
        assert(left@ =~= right@);
        text_bytes_injective(a@, b@);
    }
    true
}

/// Appends `bytes` to `buf`.
pub fn append_bytes(buf: &mut Vec<u8>, bytes: &[u8])
    ensures
        final(buf)@ == old(buf)@ + bytes@,
{
    let mut i: usize = 0;
    while i < bytes.len()
        invariant
            i <= bytes.len(),
            buf@ == old(buf)@ + bytes@.take(i as int),
        decreases bytes.len() - i,
    {
        buf.push(bytes[i]);
        assert(bytes@.take(i + 1) =~= bytes@.take(i as int).push(bytes@[i as int]));
        i += 1;
    }
    assert(bytes@.take(bytes.len() as int) =~= bytes@);
}

/// Appends the bytes of `text` to `buf`.
pub fn append_str(buf: &mut Vec<u8>, text: &str)
    ensures
        final(buf)@ == old(buf)@ + text_bytes(text@),
{
    append_bytes(buf, text.as_bytes());
}

/// The decimal digits of `n`, most significant first, as ASCII bytes.
pub open spec fn decimal(n: nat) -> Seq<u8>
    decreases n,
{
    if n < 10 {
        seq![(48 + n) as u8]
    } else {
        decimal(n / 10).push((48 + n % 10) as u8)
    }
}

/// The number that a sequence of decimal digits writes.
pub open spec fn decimal_value(digits: Seq<u8>) -> nat
    decreases digits.len(),
{
    if digits.len() == 0 {
        0
    } else {
        (decimal_value(digits.drop_last()) * 10 + (digits.last() - 48)) as nat
    }
}

/// The decimal form of a number holds digits only, starts with a zero only
/// where the number is zero, and writes that number.
pub proof fn decimal_writes_the_number(n: nat)
    ensures
        decimal(n).len() >= 1,
        forall|i: int| 0 <= i < decimal(n).len() ==> 48 <= #[trigger] decimal(n)[i] <= 57,
        decimal(n)[0] == 48 <==> n == 0,
        decimal_value(decimal(n)) == n,
    decreases n,
{
    if n < 10 {
        assert(decimal(n).drop_last() =~= Seq::<u8>::empty());
        assert(decimal_value(decimal(n).drop_last()) == 0);
    } else {
        decimal_writes_the_number(n / 10);
        assert(decimal(n).drop_last() =~= decimal(n / 10));
        assert(decimal(n)[0] == decimal(n / 10)[0]);
    }
}

/// Appends `n` in decimal to `buf`.
pub fn append_decimal(buf: &mut Vec<u8>, n: u128)
    ensures
        final(buf)@ == old(buf)@ + decimal(n as nat),
{
    // The digits, least significant first.
    let mut digits: Vec<u8> = Vec::new();
    let mut rest: u128 = n;
    digits.push(48 + (rest % 10) as u8);
    rest = rest / 10;
    while rest > 0
        invariant
            digits@.len() >= 1,
            rest == 0 ==> digits@.reverse() == decimal(n as nat),
            rest > 0 ==> decimal(n as nat) == decimal(rest as nat) + digits@.reverse(),
        decreases rest,
    {
        let ghost before = digits@;
        let ghost high = rest;
        digits.push(48 + (rest % 10) as u8);
        rest = rest / 10;
        proof {
            let digit = (48 + high % 10) as u8;
            assert(digits@.reverse() =~= seq![digit] + before.reverse());
            if high < 10 {
                assert(decimal(high as nat) =~= seq![digit]);
            } else {
                assert(decimal(high as nat) + before.reverse() =~= decimal(rest as nat) + (seq![
                    digit,
                ] + before.reverse()));
            }
        }
    }
    let mut i: usize = digits.len();
    while i > 0
        invariant
            i <= digits.len(),
            buf@ + digits@.take(i as int).reverse() == old(buf)@ + digits@.reverse(),
        decreases i,
    {
        i -= 1;
        buf.push(digits[i]);
        assert(digits@.take(i + 1).reverse() =~= seq![digits@[i as int]] + digits@.take(
            i as int,
        ).reverse());
        assert(old(buf)@ + digits@.reverse() =~= buf@ + digits@.take(i as int).reverse());
    }
    assert(digits@.take(0).reverse() =~= Seq::<u8>::empty());
    assert(buf@ + Seq::<u8>::empty() =~= buf@);
    assert(digits@.take(digits.len() as int) =~= digits@);
}

} // verus!
