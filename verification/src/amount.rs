//! Amounts of the native currency as text: the display unit has eighteen
//! decimals, the chain counts in the smallest unit.

use crate::uint256::{decimal_text, Uint256};
use vstd::prelude::*;
use vstd::string::{StrSliceExecFns, StringExecFns};

verus! {

broadcast use vstd::string::is_ascii_spec_bytes;

/// The largest value of 256 bits, plus one.
pub open spec fn two_pow_256() -> nat {
    0x1_0000_0000_0000_0000_0000_0000_0000_0000_0000_0000_0000_0000_0000_0000_0000_0000nat
}

/// How many of the smallest unit make one of the display unit.
pub open spec fn wei_per_ether() -> nat {
    1_000_000_000_000_000_000
}

/// `text` with zeros put before it until it is `width` long.
pub open spec fn zero_padded(text: Seq<char>, width: nat) -> Seq<char> {
    if text.len() >= width {
        text
    } else {
        Seq::new((width - text.len()) as nat, |i: int| '0') + text
    }
}

/// An amount of the smallest unit in the display unit: the whole part, a
/// point, and all eighteen decimals.
pub open spec fn ether_text(wei: nat) -> Seq<char> {
    decimal_text(wei / wei_per_ether()) + seq!['.'] + zero_padded(
        decimal_text(wei % wei_per_ether()),
        18,
    )
}

/// Whether `c` is a decimal digit.
pub open spec fn is_digit(c: char) -> bool {
    '0' <= c <= '9'
}

/// Whether `text` holds nothing but decimal digits.
pub open spec fn all_digits(text: Seq<char>) -> bool {
    forall|i: int| 0 <= i < text.len() ==> is_digit(#[trigger] text[i])
}

/// The number that a text of decimal digits stands for: zero for the empty
/// text.
pub open spec fn digits_value(digits: Seq<char>) -> nat
    decreases digits.len(),
{
    if digits.len() == 0 {
        0
    } else {
        digits_value(digits.drop_last()) * 10 + (digits.last() as u8 - 48) as nat
    }
}

/// What stands before the first point of `text`: all of it where there is no
/// point.
pub open spec fn whole_part(text: Seq<char>) -> Seq<char> {
    match text.index_of_first('.') {
        Some(dot) => text.take(dot),
        None => text,
    }
}

/// What stands behind the first point of `text`: nothing where there is no
/// point.
pub open spec fn fraction_part(text: Seq<char>) -> Seq<char> {
    match text.index_of_first('.') {
        Some(dot) => text.skip(dot + 1),
        None => Seq::empty(),
    }
}

/// Whether `text` is a number: decimal digits, with at most one point among
/// them, and at least one digit.
pub open spec fn is_numeric(text: Seq<char>) -> bool {
    &&& all_digits(whole_part(text))
    &&& all_digits(fraction_part(text))
    &&& whole_part(text).len() + fraction_part(text).len() >= 1
}

/// A text of `n` zeros.
pub open spec fn zeros(n: nat) -> Seq<char> {
    Seq::new(n, |i: int| '0')
}

/// The digits of a number with its point moved eighteen places to the
/// right: the whole part, the decimals, and a zero for each decimal that is
/// missing.
pub open spec fn scaled_digits(text: Seq<char>) -> Seq<char> {
    whole_part(text) + fraction_part(text) + zeros((18 - fraction_part(text).len()) as nat)
}

/// The amount in the smallest unit that a text in the display unit stands
/// for. There is none where the text is no number, where it has more than
/// eighteen decimals, and where the amount does not fit in 256 bits.
pub open spec fn amount_units(amount: Seq<char>) -> Option<nat> {
    if is_numeric(amount) && fraction_part(amount).len() <= 18 && digits_value(
        scaled_digits(amount),
    ) < two_pow_256() {
        Some(digits_value(scaled_digits(amount)))
    } else {
        None
    }
}

/// Ten to the power of `n`.
pub open spec fn ten_to(n: nat) -> nat
    decreases n,
{
    if n == 0 {
        1
    } else {
        10 * ten_to((n - 1) as nat)
    }
}

/// `ethers::utils::format_units` with the unit "ether". For an unsigned
/// amount it cannot fail with that unit, and writes the quotient by 10^18, a
/// point, and the remainder padded with zeros to eighteen digits.
#[verifier::external_body]
fn format_ether_units(wei: &Uint256) -> (text: Option<String>)
    ensures
        text is Some,
        text.unwrap()@ == ether_text(wei@),
{
    ethers::utils::format_units(ethers::types::U256(wei.limbs), "ether").ok()
}

/// `ethers::utils::parse_units` with the unit "wei", on a text of decimal
/// digits. With that unit it neither shifts nor multiplies: it reads the
/// digits as an unsigned integer, and fails where they exceed 256 bits.
#[verifier::external_body]
fn units_of_digits(digits: &str) -> (units: Option<Uint256>)
    requires
        all_digits(digits@),
    ensures
        units matches Some(u) ==> u@ == digits_value(digits@),
        units is Some <==> digits_value(digits@) < two_pow_256(),
{
    match ethers::utils::parse_units(digits, "wei") {
        Ok(units) => Some(Uint256 { limbs: ethers::types::U256::from(units).0 }),
        Err(_) => None,
    }
}

/// Writes an amount of the smallest unit in the display unit.
pub fn format_ether(wei: &Uint256) -> (text: String)
    ensures
        text@ == ether_text(wei@),
{
    format_ether_units(wei).unwrap()
}

/// Each zero behind a text of digits makes its value ten times as large.
pub proof fn lemma_value_of_trailing_zeros(digits: Seq<char>, n: nat)
    ensures
        digits_value(digits + zeros(n)) == digits_value(digits) * ten_to(n),
    decreases n,
{
    let all = digits + zeros(n);
    if n == 0 {
        assert(all =~= digits);
        assert(digits_value(digits) * 1 == digits_value(digits));
    } else {
        lemma_value_of_trailing_zeros(digits, (n - 1) as nat);
        assert(all.drop_last() =~= digits + zeros((n - 1) as nat));
        assert(all.last() == '0');
        assert(digits_value(all) == digits_value(all.drop_last()) * 10);
        assert(digits_value(digits) * ten_to((n - 1) as nat) * 10 == digits_value(digits) * (10
            * ten_to((n - 1) as nat))) by (nonlinear_arith);
    }
}

/// An amount in the smallest unit is the number that its digits stand for,
/// the point left out, times ten for each of the eighteen decimals that it
/// lacks: "0.1" is 10^17.
pub proof fn lemma_amount_scales(amount: Seq<char>)
    ensures
        amount_units(amount) matches Some(units) ==> units == digits_value(
            whole_part(amount) + fraction_part(amount),
        ) * ten_to((18 - fraction_part(amount).len()) as nat),
{
    if amount_units(amount) is Some {
        lemma_value_of_trailing_zeros(
            whole_part(amount) + fraction_part(amount),
            (18 - fraction_part(amount).len()) as nat,
        );
    }
}

/// A number is written in ASCII.
proof fn lemma_numeric_is_ascii(text: Seq<char>)
    requires
        is_numeric(text),
    ensures
        vstd::utf8::is_ascii_chars(text),
{
    text.index_of_first_ensures('.');
    assert forall|i: int| 0 <= i < text.len() implies '\0' <= #[trigger] text[i] <= '\u{7f}' by {
        match text.index_of_first('.') {
            Some(dot) => {
                if i < dot {
                    assert(is_digit(whole_part(text)[i]));
                } else if i > dot {
                    assert(is_digit(fraction_part(text)[i - dot - 1]));
                }
            },
            None => {
                assert(is_digit(whole_part(text)[i]));
            },
        }
    }
}

/// Reads an amount in the display unit as a number of the smallest unit.
///
/// The text has to be a number with at most eighteen decimals. Its point is
/// moved eighteen places to the right, and the digits are read as an
/// integer, which has to fit in 256 bits.
pub fn parse_amount(amount: &str) -> (units: Option<Uint256>)
    ensures
        units matches Some(u) ==> amount_units(amount@) == Some(u@),
        units is None ==> amount_units(amount@) is None,
{
    if !amount.is_ascii() {
        proof {
            if is_numeric(amount@) {
                lemma_numeric_is_ascii(amount@);
            }
        }
        return None;
    }
    let bytes = amount.as_bytes();
    let len: usize = bytes.len();
    let mut dot: usize = 0;
    while dot < len && bytes[dot] != 46
        invariant
            dot <= len == bytes.len(),
            bytes@.len() == amount@.len(),
            forall|j: int| 0 <= j < dot ==> amount@[j] != '.',
            vstd::utf8::is_ascii_chars(amount@),
            forall|j: int| 0 <= j < amount@.len() ==> bytes@[j] == amount@[j] as u8,
        decreases len - dot,
    {
        dot += 1;
    }
    proof {
        amount@.index_of_first_ensures('.');
        if dot < len {
            assert(amount@[dot as int] == '.');
            assert(amount@.contains('.'));
            assert(amount@.index_of_first('.') == Some(dot as int));
            assert(fraction_part(amount@) =~= amount@.subrange(dot + 1, len as int));
        } else {
            assert(amount@.index_of_first('.') is None);
            assert(fraction_part(amount@) =~= amount@.subrange(len as int, len as int));
        }
        assert(whole_part(amount@) =~= amount@.subrange(0, dot as int));
    }
    let behind: usize = if dot < len {
        dot + 1
    } else {
        len
    };
    let mut i: usize = 0;
    while i < len
        invariant
            i <= len == bytes.len(),
            dot <= len,
            bytes@.len() == amount@.len(),
            vstd::utf8::is_ascii_chars(amount@),
            forall|j: int| 0 <= j < amount@.len() ==> bytes@[j] == amount@[j] as u8,
            forall|j: int| 0 <= j < i && j != dot ==> is_digit(#[trigger] amount@[j]),
            whole_part(amount@) == amount@.subrange(0, dot as int),
            fraction_part(amount@) == amount@.subrange(behind as int, len as int),
            behind == if dot < len { dot + 1 } else { len as int },
        decreases len - i,
    {
        if i != dot && !(48 <= bytes[i] && bytes[i] <= 57) {
            proof {
                if i < dot {
                    assert(whole_part(amount@)[i as int] == amount@[i as int]);
                } else {
                    assert(fraction_part(amount@)[i - behind] == amount@[i as int]);
                }
            }
            return None;
        }
        i += 1;
    }
    if len - behind > 18 || dot + (len - behind) < 1 {
        return None;
    }
    let whole = amount.substring_ascii(0, dot);
    let fraction = amount.substring_ascii(behind, len);
    let eighteen = "000000000000000000";
    proof {
        reveal_strlit("000000000000000000");
        assert(vstd::utf8::is_ascii_chars(eighteen@));
    }
    let padding = eighteen.substring_ascii(0, 18 - (len - behind));
    let mut digits = whole.to_owned();
    digits.append(fraction);
    digits.append(padding);
    proof {
        assert(padding@ =~= zeros((18 - fraction_part(amount@).len()) as nat));
        assert(digits@ =~= scaled_digits(amount@));
        assert(is_numeric(amount@));
        assert(all_digits(digits@));
    }
    units_of_digits(digits.as_str())
}

} // verus!
