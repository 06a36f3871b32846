//! Identifiers of transactions and of explain records: 128-bit values drawn
//! at random, written as text where a record holds them.

use uuid::Uuid;
use vstd::arithmetic::div_mod::{
    lemma_basic_div, lemma_div_denominator, lemma_fundamental_div_mod,
};
use vstd::arithmetic::power::{lemma_pow_positive, pow};
use vstd::prelude::*;

verus! {

/// Whether `bits` carries the marks of an identifier drawn at random: the
/// version digit is 4 and the two variant bits are `10`.
pub open spec fn is_random_id(bits: u128) -> bool {
    bits & 0x0000_0000_0000_f000_c000_0000_0000_0000 == 0x0000_0000_0000_4000_8000_0000_0000_0000
}

/// The lower-case hexadecimal digit for `n`, where `0 <= n < 16`.
pub open spec fn hex_digit(n: int) -> char {
    if n < 10 {
        (0x30 + n) as char
    } else {
        (0x61 + (n - 10)) as char
    }
}

/// The `k`-th hexadecimal digit of `bits`, counted from the most significant
/// one, where `0 <= k < 32`.
pub open spec fn nibble(bits: u128, k: int) -> int {
    (bits as int / pow(16, (31 - k) as nat)) % 16
}

/// How many hyphens stand before position `i` of an identifier's text.
pub open spec fn hyphens_before(i: int) -> int {
    if i < 8 {
        0
    } else if i < 13 {
        1
    } else if i < 18 {
        2
    } else if i < 23 {
        3
    } else {
        4
    }
}

/// The text of an identifier: its 32 hexadecimal digits in lower case, most
/// significant first, in groups of 8, 4, 4, 4 and 12 with a hyphen between
/// two groups.
pub open spec fn id_text(bits: u128) -> Seq<char> {
    Seq::new(
        36,
        |i: int|
            if i == 8 || i == 13 || i == 18 || i == 23 {
                '-'
            } else {
                hex_digit(nibble(bits, i - hyphens_before(i)))
            },
    )
}

/// Calls `Uuid::new_v4` and hands out the identifier's 128 bits
/// (`Uuid::as_u128`). The identifier is drawn from the operating system's
/// random source; all that is claimed is that its version and variant bits
/// are those of a random identifier, which `new_v4` sets on every draw.
/// Where the random source fails, `new_v4` panics.
#[verifier::external_body]
pub(crate) fn fresh_id() -> (bits: u128)
    ensures
        is_random_id(bits),
{
    Uuid::new_v4().as_u128()
}

/// Calls `Uuid::from_u128` and the `to_string` of the identifier, which
/// writes the hyphenated lower-case form.
#[verifier::external_body]
pub(crate) fn hyphenated(bits: u128) -> (text: String)
    ensures
        text@ == id_text(bits),
{
    Uuid::from_u128(bits).to_string()
}

/// Where the `k`-th digit stands in an identifier's text, where `0 <= k < 32`.
pub open spec fn place_of_digit(k: int) -> int {
    if k < 8 {
        k
    } else if k < 12 {
        k + 1
    } else if k < 16 {
        k + 2
    } else if k < 20 {
        k + 3
    } else {
        k + 4
    }
}

/// Sixteen to the power of one more is sixteen times the power.
proof fn lemma_next_power(j: nat)
    ensures
        pow(16, j + 1) == 16 * pow(16, j),
        pow(16, j) > 0,
{
    reveal(pow);
    lemma_pow_positive(16, j);
}

/// An identifier has no digits above its thirty-two.
proof fn lemma_no_higher_digits(bits: u128)
    ensures
        bits as int / pow(16, 32) == 0,
{
    assert(pow(16, 32) == 0x1_0000_0000_0000_0000_0000_0000_0000_0000) by {
        reveal_with_fuel(pow, 33);
    }
    lemma_basic_div(bits as int, pow(16, 32));
}

/// Two identifiers with the same digits agree in what stands above any of
/// their digits, and so are one identifier.
proof fn lemma_same_digits(a: u128, b: u128, j: nat)
    requires
        j <= 32,
        forall|k: int| 0 <= k < 32 ==> nibble(a, k) == nibble(b, k),
    ensures
        a as int / pow(16, j) == b as int / pow(16, j),
    decreases 32 - j,
{
    if j == 32 {
        lemma_no_higher_digits(a);
        lemma_no_higher_digits(b);
    } else {
        lemma_same_digits(a, b, j + 1);
        lemma_next_power(j);
        let p = pow(16, j);
        lemma_div_denominator(a as int, p, 16);
        lemma_div_denominator(b as int, p, 16);
        assert(p * 16 == pow(16, j + 1));
        lemma_fundamental_div_mod(a as int / p, 16);
        lemma_fundamental_div_mod(b as int / p, 16);
        assert(nibble(a, 31 - j) == nibble(b, 31 - j));
        assert((31 - (31 - j)) as nat == j);
    }
}

/// Different identifiers have different texts.
pub proof fn law_text_tells_identifiers_apart(a: u128, b: u128)
    requires
        id_text(a) == id_text(b),
    ensures
        a == b,
{
    assert forall|k: int| 0 <= k < 32 implies nibble(a, k) == nibble(b, k) by {
        let p = place_of_digit(k);
        assert(id_text(a)[p] == hex_digit(nibble(a, k)));
        assert(id_text(b)[p] == hex_digit(nibble(b, k)));
        lemma_next_power((31 - k) as nat);
        assert(0 <= nibble(a, k) < 16);
        assert(0 <= nibble(b, k) < 16);
    }
    lemma_same_digits(a, b, 0);
    assert(pow(16, 0) == 1) by {
        reveal(pow);
    }
}

} // verus!
