//! Hexadecimal text: the digits of a byte string, and what a text of digits
//! stands for.

use vstd::prelude::*;

verus! {

/// The lower-case hexadecimal digit of a value below sixteen.
pub open spec fn hex_digit(n: u8) -> char {
    if n < 10 {
        (n + 48) as u8 as char
    } else {
        (n + 87) as u8 as char
    }
}

/// The `i`-th half byte of `bytes`, the high half of each byte first.
pub open spec fn nibble_at(bytes: Seq<u8>, i: int) -> u8 {
    if i % 2 == 0 {
        bytes[i / 2] / 16
    } else {
        bytes[i / 2] % 16
    }
}

/// The lower-case hexadecimal text of `bytes`: two digits for each byte.
pub open spec fn lower_hex_text(bytes: Seq<u8>) -> Seq<char> {
    Seq::new(2 * bytes.len(), |i: int| hex_digit(nibble_at(bytes, i)))
}

/// Whether `c` is a hexadecimal digit, of either case.
pub open spec fn is_hex_digit(c: char) -> bool {
    '0' <= c <= '9' || 'a' <= c <= 'f' || 'A' <= c <= 'F'
}

/// What a hexadecimal digit counts for.
pub open spec fn hex_value(c: char) -> u8 {
    if '0' <= c <= '9' {
        (c as u8 - 48) as u8
    } else if 'a' <= c <= 'f' {
        (c as u8 - 87) as u8
    } else {
        (c as u8 - 55) as u8
    }
}

/// The blanks that may stand among the digits: space, carriage return, line
/// feed and tab.
pub open spec fn is_blank(c: char) -> bool {
    c == ' ' || c == '\r' || c == '\n' || c == '\t'
}

/// `text` with its blanks taken out.
pub open spec fn without_blanks(text: Seq<char>) -> Seq<char>
    decreases text.len(),
{
    if text.len() == 0 {
        text
    } else if is_blank(text.last()) {
        without_blanks(text.drop_last())
    } else {
        without_blanks(text.drop_last()).push(text.last())
    }
}

/// `text` without the prefix "0x", where it has one.
pub open spec fn without_prefix(text: Seq<char>) -> Seq<char> {
    if text.len() >= 2 && text[0] == '0' && text[1] == 'x' {
        text.skip(2)
    } else {
        text
    }
}

/// The bytes that an even number of hexadecimal digits stand for.
pub open spec fn hex_bytes(digits: Seq<char>) -> Seq<u8> {
    Seq::new(
        digits.len() / 2,
        |i: int| (hex_value(digits[2 * i]) * 16 + hex_value(digits[2 * i + 1])) as u8,
    )
}

/// The `width` bytes that `text` stands for: an optional "0x", then exactly
/// two digits of either case for each byte, with blanks allowed among and
/// behind them. Nothing where `text` is not of that form.
pub open spec fn fixed_hex(text: Seq<char>, width: nat) -> Option<Seq<u8>> {
    let digits = without_blanks(without_prefix(text));
    if digits.len() == 2 * width && forall|i: int|
        0 <= i < digits.len() ==> is_hex_digit(#[trigger] digits[i]) {
        Some(hex_bytes(digits))
    } else {
        None
    }
}

/// `c` in lower case, where it is an ASCII capital.
pub open spec fn to_lower(c: char) -> char {
    if 'A' <= c <= 'Z' {
        (c as u8 + 32) as u8 as char
    } else {
        c
    }
}

/// `text` with its ASCII capitals in lower case.
pub open spec fn lower_case(text: Seq<char>) -> Seq<char> {
    Seq::new(text.len(), |i: int| to_lower(text[i]))
}

/// `String::push` of std: the character is appended, and nothing else
/// changes.
pub assume_specification[ String::push ](text: &mut String, c: char)
    ensures
        final(text)@ == old(text)@.push(c),
;

/// The digit of a value below sixteen.
fn hex_digit_of(n: u8) -> (c: char)
    requires
        n < 16,
    ensures
        c == hex_digit(n),
{
    if n < 10 {
        (n + 48) as char
    } else {
        (n + 87) as char
    }
}

/// Appends the lower-case hexadecimal digits of `bytes` to `out`.
pub fn push_lower_hex(out: &mut String, bytes: &[u8])
    ensures
        final(out)@ == old(out)@ + lower_hex_text(bytes@),
{
    let ghost before = out@;
    let mut i: usize = 0;
    while i < bytes.len()
        invariant
            i <= bytes.len(),
            out@ == before + lower_hex_text(bytes@).take(2 * i),
        decreases bytes.len() - i,
    {
        let b: u8 = bytes[i];
        out.push(hex_digit_of(b / 16));
        out.push(hex_digit_of(b % 16));
        i += 1;
        assert(out@ =~= before + lower_hex_text(bytes@).take(2 * i));
    }
    assert(lower_hex_text(bytes@).take(2 * i) =~= lower_hex_text(bytes@));
}

/// A text without blanks loses nothing when its blanks are taken out.
pub proof fn lemma_without_blanks_keeps(text: Seq<char>)
    requires
        forall|i: int| 0 <= i < text.len() ==> !is_blank(#[trigger] text[i]),
    ensures
        without_blanks(text) == text,
    decreases text.len(),
{
    if text.len() > 0 {
        lemma_without_blanks_keeps(text.drop_last());
        assert(text.drop_last().push(text.last()) =~= text);
    }
}

/// Digits that are, but for their case, the lower-case text of some bytes
/// stand for those bytes.
pub proof fn lemma_hex_bytes_of_cased_text(digits: Seq<char>, bytes: Seq<u8>)
    requires
        lower_case(digits) == lower_hex_text(bytes),
    ensures
        fixed_hex(seq!['0', 'x'] + digits, bytes.len()) == Some(bytes),
        fixed_hex(digits, bytes.len()) == Some(bytes),
{
    let lower = lower_hex_text(bytes);
    assert(lower_case(digits).len() == digits.len());
    assert(lower.len() == 2 * bytes.len());
    assert forall|i: int| 0 <= i < digits.len() implies is_hex_digit(#[trigger] digits[i])
        && !is_blank(digits[i]) && hex_value(digits[i]) == nibble_at(bytes, i) by {
        assert(to_lower(digits[i]) == lower_case(digits)[i]);
        assert(lower[i] == hex_digit(nibble_at(bytes, i)));
        assert(nibble_at(bytes, i) < 16);
    }
    lemma_without_blanks_keeps(digits);
    let prefixed = seq!['0', 'x'] + digits;
    assert(without_prefix(prefixed) =~= digits);
    if digits.len() >= 2 {
        assert(!(digits[0] == '0' && digits[1] == 'x'));
    }
    assert(without_prefix(digits) == digits);
    assert forall|i: int| 0 <= i < bytes.len() implies hex_bytes(digits)[i] == bytes[i] by {
        assert(hex_value(digits[2 * i]) == nibble_at(bytes, 2 * i));
        assert(hex_value(digits[2 * i + 1]) == nibble_at(bytes, 2 * i + 1));
    }
    assert(hex_bytes(digits) =~= bytes);
}

} // verus!
