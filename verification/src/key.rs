//! Identifiers and the keys under which records are stored.
//!
//! An identifier is the 128-bit value of a UUID. Its key is its canonical
//! text: thirty-two lower-case hexadecimal digits, most significant first,
//! in groups of 8, 4, 4, 4 and 12 with a hyphen between groups.

use crate::record::Transaction;
use vstd::arithmetic::div_mod::lemma_breakdown;
use vstd::prelude::*;

verus! {

/// The length of every key.
pub const KEY_LENGTH: usize = 36;

/// The lower-case digit for a value below sixteen.
pub open spec fn hex_digit(n: int) -> char {
    seq!['0', '1', '2', '3', '4', '5', '6', '7', '8', '9', 'a', 'b', 'c', 'd', 'e', 'f'][n]
}

/// Sixteen to the power `n`.
pub open spec fn pow16(n: nat) -> nat
    decreases n,
{
    if n == 0 {
        1
    } else {
        16 * pow16((n - 1) as nat)
    }
}

/// The hexadecimal digit of `id` at place `k`, counted from the most
/// significant digit, which is place 0; the least significant is place 31.
pub open spec fn nibble(id: u128, k: int) -> int {
    (id as int / pow16((31 - k) as nat) as int) % 16
}

/// The character of the key of `id` at position `i`.
pub open spec fn key_char(id: u128, i: int) -> char {
    if i == 8 || i == 13 || i == 18 || i == 23 {
        '-'
    } else if i < 8 {
        hex_digit(nibble(id, i))
    } else if i < 13 {
        hex_digit(nibble(id, i - 1))
    } else if i < 18 {
        hex_digit(nibble(id, i - 2))
    } else if i < 23 {
        hex_digit(nibble(id, i - 3))
    } else {
        hex_digit(nibble(id, i - 4))
    }
}

/// The key under which the record with identifier `id` is stored.
pub open spec fn key_text(id: u128) -> Seq<char> {
    Seq::new(36, |i: int| key_char(id, i))
}

/// What holds of every identifier that is drawn at random: its digit at
/// place 12 is the version, 4, and the two high bits of its digit at place 16
/// are the variant, one and zero.
pub open spec fn is_random_id(id: u128) -> bool {
    nibble(id, 12) == 4 && 8 <= nibble(id, 16) < 12
}

/// Draws an identifier with `uuid::Uuid::new_v4` and hands it out as the
/// 128-bit value that `Uuid::as_u128` gives. Nothing is claimed of the random
/// bits, only the version and variant that `new_v4` sets in each identifier:
/// that it differs from every earlier one rests on chance, and no earlier
/// identifier is consulted.
#[verifier::external_body]
pub(crate) fn random_id() -> (id: u128)
    ensures
        is_random_id(id),
{
    uuid::Uuid::new_v4().as_u128()
}

/// Formats the UUID with the value `id` by its `Display` impl, which writes
/// the hyphenated lower-case form: each byte, most significant first, as two
/// hexadecimal digits, with hyphens after the eighth, twelfth, sixteenth and
/// twentieth digit.
#[verifier::external_body]
fn hyphenated(id: u128) -> (text: String)
    ensures
        text@ == key_text(id),
{
    uuid::Uuid::from_u128(id).to_string()
}

/// The key of the identifier `id`.
pub fn key_of(id: u128) -> (key: String)
    ensures
        key@ == key_text(id),
        key@.len() == KEY_LENGTH,
{
    hyphenated(id)
}

/// The key under which `record` is stored.
pub fn record_key(record: &Transaction) -> (key: String)
    ensures
        key@ == key_text(record@.id),
{
    key_of(record.id())
}

/// Distinct values below sixteen have distinct digits.
proof fn lemma_hex_digit_injective(m: int, n: int)
    requires
        0 <= m < 16,
        0 <= n < 16,
        hex_digit(m) == hex_digit(n),
    ensures
        m == n,
{
}

/// Two identifiers that agree in their last `n` digits agree modulo the
/// `n`-th power of sixteen.
proof fn lemma_low_digits(a: u128, b: u128, n: nat)
    requires
        n <= 32,
        forall|k: int| 32 - n <= k < 32 ==> nibble(a, k) == nibble(b, k),
    ensures
        a as int % pow16(n) as int == b as int % pow16(n) as int,
    decreases n,
{
    if n > 0 {
        let m = (n - 1) as nat;
        lemma_low_digits(a, b, m);
        lemma_pow16_positive(m);
        let w = pow16(m) as int;
        assert(nibble(a, 31 - m) == nibble(b, 31 - m));
        assert(pow16(n) as int == w * 16) by (nonlinear_arith)
            requires
                pow16(n) == 16 * pow16(m),
                w == pow16(m) as int,
        ;
        lemma_breakdown(a as int, w, 16);
        lemma_breakdown(b as int, w, 16);
    }
}

proof fn lemma_pow16_positive(n: nat)
    ensures
        pow16(n) > 0,
    decreases n,
{
    if n > 0 {
        lemma_pow16_positive((n - 1) as nat);
    }
}

/// The thirty-second power of sixteen lies above every identifier.
proof fn lemma_pow16_32()
    ensures
        pow16(32) == 0x1_0000_0000_0000_0000_0000_0000_0000_0000,
{
    reveal_with_fuel(pow16, 33);
}

/// Every key has thirty-six characters, with its hyphens at the same four
/// positions.
pub proof fn lemma_key_shape(id: u128)
    ensures
        key_text(id).len() == 36,
        key_text(id)[8] == '-',
        key_text(id)[13] == '-',
        key_text(id)[18] == '-',
        key_text(id)[23] == '-',
{
}

/// Keys are derived from identifiers one to one: records with distinct
/// identifiers are never stored under the same key.
pub proof fn lemma_key_injective(a: u128, b: u128)
    requires
        key_text(a) == key_text(b),
    ensures
        a == b,
{
    assert forall|k: int| 0 <= k < 32 implies nibble(a, k) == nibble(b, k) by {
        let i = if k < 8 {
            k
        } else if k < 12 {
            k + 1
        } else if k < 16 {
            k + 2
        } else if k < 20 {
            k + 3
        } else {
            k + 4
        };
        assert(key_text(a)[i] == key_char(a, i));
        assert(key_text(b)[i] == key_char(b, i));
        assert(hex_digit(nibble(a, k)) == hex_digit(nibble(b, k)));
        lemma_pow16_positive((31 - k) as nat);
        lemma_hex_digit_injective(nibble(a, k), nibble(b, k));
    }
    lemma_low_digits(a, b, 32);
    lemma_pow16_32();
}

} // verus!
