//! Comparing text by its characters.
use vstd::prelude::*;
use vstd::utf8::*;

verus! {

/// Whether two strings hold the same characters. The comparison runs over
/// their UTF-8 bytes, which determine the characters.
pub fn same_text(a: &str, b: &str) -> (same: bool)
    ensures
        same == (a@ == b@),
{
    let x = a.as_bytes();
    let y = b.as_bytes();
    proof {
        encode_utf8_decode_utf8(a@);
        encode_utf8_decode_utf8(b@);
    }
    if x.len() != y.len() {
        return false;
    }
    let mut i: usize = 0;
    while i < x.len()
        invariant
            x@ == encode_utf8(a@),
            y@ == encode_utf8(b@),
            x@.len() == y@.len(),
            0 <= i <= x@.len(),
            forall|k: int| 0 <= k < i ==> x@[k] == y@[k],
        decreases x@.len() - i,
    {
        if x[i] != y[i] {
            return false;
        }
        i += 1;
    }
    assert(x@ =~= y@);
    true
}

pub open spec fn is_digit(byte: u8) -> bool {
    48 <= byte <= 57
}

/// The number that a run of ASCII decimal digits spells.
pub open spec fn digits_value(digits: Seq<u8>) -> nat
    decreases digits.len(),
{
    if digits.len() == 0 {
        0
    } else {
        (digits_value(digits.drop_last()) * 10 + (digits.last() - 48)) as nat
    }
}

/// What `text` parses to as an unsigned 32-bit number: an optional `+`, then
/// one or more decimal digits spelling a number that fits.
/// The digits of a number: the text after an optional leading `+`.
pub open spec fn unsigned_digits(text: Seq<u8>) -> Seq<u8> {
    if text.len() > 0 && text[0] == 43 {
        text.drop_first()
    } else {
        text
    }
}

pub open spec fn parsed_u32(text: Seq<u8>) -> Option<u32> {
    let digits = unsigned_digits(text);
    if digits.len() > 0 && (forall|k: int| 0 <= k < digits.len() ==> is_digit(#[trigger] digits[k]))
        && digits_value(digits) <= u32::MAX {
        Some(digits_value(digits) as u32)
    } else {
        None
    }
}

proof fn lemma_prefix_value_is_no_larger(digits: Seq<u8>, k: int)
    requires
        0 <= k <= digits.len(),
        forall|j: int| 0 <= j < digits.len() ==> is_digit(#[trigger] digits[j]),
    ensures
        digits_value(digits.take(k)) <= digits_value(digits),
    decreases digits.len() - k,
{
    if k < digits.len() {
        lemma_prefix_value_is_no_larger(digits, k + 1);
        assert(digits.take(k + 1).drop_last() =~= digits.take(k));
    } else {
        assert(digits.take(k) =~= digits);
    }
}

/// Parses an unsigned 32-bit decimal number, as the standard library reads
/// one: an optional `+`, then decimal digits, with no room for overflow.
pub fn parse_u32(text: &str) -> (number: Option<u32>)
    ensures
        number == parsed_u32(encode_utf8(text@)),
{
    let bytes = text.as_bytes();
    let ghost all = bytes@;
    let start: usize = if bytes.len() > 0 && bytes[0] == 43 {
        1
    } else {
        0
    };
    let ghost digits = all.subrange(start as int, all.len() as int);
    assert(start == 1 ==> digits =~= all.drop_first());
    assert(start == 0 ==> digits =~= all);
    if bytes.len() == start {
        return None;
    }
    let mut value: u64 = 0;
    let mut i: usize = start;
    while i < bytes.len()
        invariant
            bytes@ == all,
            all == encode_utf8(text@),
            start <= i <= all.len(),
            digits == all.subrange(start as int, all.len() as int),
            digits == unsigned_digits(all),
            digits.len() > 0,
            forall|k: int| 0 <= k < i - start ==> is_digit(#[trigger] digits[k]),
            value == digits_value(digits.take(i - start)),
            value <= u32::MAX,
        decreases all.len() - i,
    {
        let byte = bytes[i];
        assert(digits[i - start] == byte);
        if byte < 48 || byte > 57 {
            assert(!is_digit(digits[i - start]));
            return None;
        }
        assert(digits.take(i - start + 1).drop_last() =~= digits.take(i - start));
        assert(digits.take(i - start + 1).last() == byte);
        value = value * 10 + (byte - 48) as u64;
        if value > u32::MAX as u64 {
            proof {
                if forall|k: int| 0 <= k < digits.len() ==> is_digit(#[trigger] digits[k]) {
                    lemma_prefix_value_is_no_larger(digits, i - start + 1);
                }
            }
            return None;
        }
        i += 1;
    }
    assert(digits.take(i - start) =~= digits);
    Some(value as u32)
}

/// The decimal spelling of `n` in ASCII, most significant digit first, with
/// no leading zeros: `'0'` is byte 48 and `'9'` byte 57.
pub open spec fn decimal_text(n: nat) -> Seq<u8>
    decreases n,
{
    if n < 10 {
        seq![(48 + n) as u8]
    } else {
        decimal_text(n / 10).push((48 + n % 10) as u8)
    }
}

proof fn lemma_decimal_text_spells(n: nat)
    ensures
        decimal_text(n).len() > 0,
        48 <= decimal_text(n)[0] <= 57,
        forall|k: int| 0 <= k < decimal_text(n).len() ==> is_digit(#[trigger] decimal_text(n)[k]),
        digits_value(decimal_text(n)) == n,
    decreases n,
{
    if n < 10 {
        let t = decimal_text(n);
        assert(t.drop_last() =~= Seq::<u8>::empty());
        assert(t.last() - 48 == n);
        assert(digits_value(t.drop_last()) == 0);
        assert(digits_value(t) == digits_value(t.drop_last()) * 10 + (t.last() - 48));
    } else {
        lemma_decimal_text_spells(n / 10);
        let t = decimal_text(n);
        assert(t.drop_last() =~= decimal_text(n / 10));
        assert(t.last() == (48 + n % 10) as u8);
        assert(t.last() - 48 == n % 10);
        assert((n / 10) * 10 + n % 10 == n);
        assert(digits_value(t) == digits_value(t.drop_last()) * 10 + (t.last() - 48));
    }
}

/// Every unsigned 32-bit number reads back from its decimal spelling, with
/// or without a leading `+`: every ASCII digit from `'0'` to `'9'` counts.
pub proof fn lemma_decimal_numbers_parse(n: u32)
    ensures
        parsed_u32(decimal_text(n as nat)) == Some(n),
        parsed_u32(seq![43u8] + decimal_text(n as nat)) == Some(n),
{
    lemma_decimal_text_spells(n as nat);
    let t = decimal_text(n as nat);
    assert(unsigned_digits(t) == t);
    assert((seq![43u8] + t).drop_first() =~= t);
    assert(unsigned_digits(seq![43u8] + t) == t);
}

/// A number does not parse from text holding a byte that is not an ASCII
/// digit after the optional `+`, nor from text with no digits at all.
pub proof fn lemma_only_digits_parse(text: Seq<u8>, k: int)
    requires
        0 <= k < unsigned_digits(text).len(),
        !(48 <= unsigned_digits(text)[k] <= 57),
    ensures
        parsed_u32(text) is None,
{
}

/// Text whose characters are the decimal digits of `n` reads as `n`: a key
/// such as `"0"` or `"10"` names that index.
pub proof fn lemma_decimal_keys_read_as_numbers(key: Seq<char>, n: u32)
    requires
        key.len() == decimal_text(n as nat).len(),
        forall|k: int| 0 <= k < key.len() ==> (#[trigger] key[k]) as int == decimal_text(n as nat)[k],
    ensures
        parsed_u32(encode_utf8(key)) == Some(n),
{
    lemma_decimal_text_spells(n as nat);
    assert(is_ascii_chars(key));
    is_ascii_chars_encode_utf8(key);
    assert(encode_utf8(key) =~= decimal_text(n as nat));
    lemma_decimal_numbers_parse(n);
}

/// A number too large for 32 bits does not parse, nor does a negative one,
/// a lone `+`, or empty text.
pub proof fn lemma_what_does_not_parse(n: nat)
    ensures
        n > u32::MAX ==> parsed_u32(decimal_text(n)) is None,
        parsed_u32(seq![45u8] + decimal_text(n)) is None,
        parsed_u32(seq![43u8]) is None,
        parsed_u32(Seq::<u8>::empty()) is None,
{
    lemma_decimal_text_spells(n);
    let t = decimal_text(n);
    assert(unsigned_digits(t) == t);
    let negative = seq![45u8] + t;
    assert(unsigned_digits(negative) == negative);
    assert(!is_digit(negative[0]));
    assert(unsigned_digits(seq![43u8]).len() == 0);
}

} // verus!
