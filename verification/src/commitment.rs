//! The commitment ledger: 32-byte value commitments and the group operation
//! that combines them.
//!
//! The group is `(Z/256)^32` under component-wise addition. A value is
//! committed by adding it to every byte of a 32-byte blinding. Combining
//! commitments then mirrors addition of the committed values, and the group
//! laws the engines rely on hold; both are proved below. The scheme is not
//! binding, since every commitment opens to every value under some
//! blinding, so it gives no cryptographic protection by itself.

use vstd::prelude::*;
use vstd::arithmetic::div_mod::{
    lemma_add_mod_noop, lemma_add_mod_noop_right, lemma_sub_mod_noop,
};

verus! {

/// Number of bytes in a commitment.
pub const COMMITMENT_BYTES: usize = 32;

/// Whether `combine` adds or subtracts its second operand.
#[derive(Clone, Copy, Debug, PartialEq, Eq, Structural)]
pub enum Direction {
    Add,
    Subtract,
}

/// Sum of two bytes modulo 256.
pub open spec fn byte_sum(x: u8, y: u8) -> u8 {
    ((x + y) % 256) as u8
}

/// Difference of two bytes modulo 256.
pub open spec fn byte_difference(x: u8, y: u8) -> u8 {
    ((x - y) % 256) as u8
}

/// Component-wise sum of two commitments.
pub open spec fn commitment_sum(a: Seq<u8>, b: Seq<u8>) -> Seq<u8> {
    Seq::new(a.len(), |i: int| byte_sum(a[i], b[i]))
}

/// Component-wise difference of two commitments.
pub open spec fn commitment_difference(a: Seq<u8>, b: Seq<u8>) -> Seq<u8> {
    Seq::new(a.len(), |i: int| byte_difference(a[i], b[i]))
}

/// The commitment to the zero value: the identity of the group.
pub open spec fn zero_commitment() -> Seq<u8> {
    Seq::new(COMMITMENT_BYTES as nat, |i: int| 0u8)
}

/// What `combine` yields for a direction.
pub open spec fn combined(a: Seq<u8>, b: Seq<u8>, direction: Direction) -> Seq<u8> {
    match direction {
        Direction::Add => commitment_sum(a, b),
        Direction::Subtract => commitment_difference(a, b),
    }
}

/// Adds two commitments, byte by byte modulo 256. The sum commits to the
/// sum of the two committed values.
pub fn add_commitments(c1: &[u8; 32], c2: &[u8; 32]) -> (result: [u8; 32])
    ensures
        result@ == commitment_sum(c1@, c2@),
{
    let mut result = [0u8; 32];
    let mut i: usize = 0;
    while i < 32
        invariant
            i <= 32,
            forall|j: int| 0 <= j < i ==> result@[j] == byte_sum(c1@[j], c2@[j]),
        decreases 32 - i,
    {
        result[i] = c1[i].wrapping_add(c2[i]);
        i += 1;
    }
    assert(result@ =~= commitment_sum(c1@, c2@));
    result
}

/// Subtracts the second commitment from the first, byte by byte modulo
/// 256. The difference commits to the difference of the two committed
/// values.
pub fn subtract_commitments(c1: &[u8; 32], c2: &[u8; 32]) -> (result: [u8; 32])
    ensures
        result@ == commitment_difference(c1@, c2@),
{
    let mut result = [0u8; 32];
    let mut i: usize = 0;
    while i < 32
        invariant
            i <= 32,
            forall|j: int| 0 <= j < i ==> result@[j] == byte_difference(c1@[j], c2@[j]),
        decreases 32 - i,
    {
        result[i] = c1[i].wrapping_sub(c2[i]);
        i += 1;
    }
    assert(result@ =~= commitment_difference(c1@, c2@));
    result
}

/// Combines two commitments in the given direction.
pub fn combine(c1: &[u8; 32], c2: &[u8; 32], direction: Direction) -> (result: [u8; 32])
    ensures
        result@ == combined(c1@, c2@, direction),
{
    match direction {
        Direction::Add => add_commitments(c1, c2),
        Direction::Subtract => subtract_commitments(c1, c2),
    }
}

/// The byte that commits to `value` under the blinding byte `blinding`.
pub open spec fn committed_byte(value: int, blinding: u8) -> u8 {
    ((value + blinding) % 256) as u8
}

/// The commitment to `value` under `blinding`: byte `i` is
/// `value + blinding[i]` modulo 256.
pub open spec fn commitment_to(value: int, blinding: Seq<u8>) -> Seq<u8> {
    Seq::new(COMMITMENT_BYTES as nat, |i: int| committed_byte(value, blinding[i]))
}

/// Commits to `value` under `blinding`.
pub fn commit(value: u64, blinding: &[u8; 32]) -> (result: [u8; 32])
    ensures
        result@ == commitment_to(value as int, blinding@),
{
    let low: u8 = (value % 256) as u8;
    let mut result = [0u8; 32];
    let mut i: usize = 0;
    while i < 32
        invariant
            i <= 32,
            low == value % 256,
            forall|j: int| 0 <= j < i ==> result@[j] == committed_byte(value as int, blinding@[j]),
        decreases 32 - i,
    {
        proof {
            lemma_add_mod_noop(value as int, blinding@[i as int] as int, 256);
        }
        result[i] = low.wrapping_add(blinding[i]);
        i += 1;
    }
    assert(result@ =~= commitment_to(value as int, blinding@));
    result
}

/// The commitment to the zero value.
pub fn zero() -> (result: [u8; 32])
    ensures
        result@ == zero_commitment(),
{
    let result = [0u8; 32];
    assert(result@ =~= zero_commitment());
    result
}

/// A well-formed commitment has exactly `COMMITMENT_BYTES` bytes.
pub open spec fn is_commitment(a: Seq<u8>) -> bool {
    a.len() == COMMITMENT_BYTES
}

/// Combining is associative: `(a + b) + c == a + (b + c)`.
pub proof fn lemma_sum_associative(a: Seq<u8>, b: Seq<u8>, c: Seq<u8>)
    requires
        is_commitment(a),
        is_commitment(b),
        is_commitment(c),
    ensures
        commitment_sum(commitment_sum(a, b), c) == commitment_sum(a, commitment_sum(b, c)),
{
    assert(commitment_sum(commitment_sum(a, b), c) =~= commitment_sum(a, commitment_sum(b, c)));
}

/// Combining is commutative: `a + b == b + a`.
pub proof fn lemma_sum_commutative(a: Seq<u8>, b: Seq<u8>)
    requires
        is_commitment(a),
        is_commitment(b),
    ensures
        commitment_sum(a, b) == commitment_sum(b, a),
{
    assert(commitment_sum(a, b) =~= commitment_sum(b, a));
}

/// The zero commitment is the identity: `a + 0 == a` and `a - 0 == a`.
pub proof fn lemma_zero_is_identity(a: Seq<u8>)
    requires
        is_commitment(a),
    ensures
        commitment_sum(a, zero_commitment()) == a,
        commitment_sum(zero_commitment(), a) == a,
        commitment_difference(a, zero_commitment()) == a,
{
    assert(commitment_sum(a, zero_commitment()) =~= a);
    assert(commitment_sum(zero_commitment(), a) =~= a);
    assert(commitment_difference(a, zero_commitment()) =~= a);
}

/// Subtracting a commitment from itself yields the commitment to zero.
pub proof fn lemma_self_difference_is_zero(a: Seq<u8>)
    requires
        is_commitment(a),
    ensures
        commitment_difference(a, a) == zero_commitment(),
{
    assert(commitment_difference(a, a) =~= zero_commitment());
}

/// Subtraction undoes addition and addition undoes subtraction:
/// `(a + b) - b == a` and `(a - b) + b == a`.
pub proof fn lemma_difference_inverts_sum(a: Seq<u8>, b: Seq<u8>)
    requires
        is_commitment(a),
        is_commitment(b),
    ensures
        commitment_difference(commitment_sum(a, b), b) == a,
        commitment_sum(commitment_difference(a, b), b) == a,
{
    assert(commitment_difference(commitment_sum(a, b), b) =~= a);
    assert(commitment_sum(commitment_difference(a, b), b) =~= a);
}

/// Sums and differences of commitments are commitments.
pub proof fn lemma_combined_is_commitment(a: Seq<u8>, b: Seq<u8>, direction: Direction)
    requires
        is_commitment(a),
    ensures
        is_commitment(combined(a, b, direction)),
{
}

proof fn lemma_committed_bytes_combine(value_a: int, blinding_a: u8, value_b: int, blinding_b: u8)
    ensures
        byte_sum(committed_byte(value_a, blinding_a), committed_byte(value_b, blinding_b))
            == committed_byte(value_a + value_b, byte_sum(blinding_a, blinding_b)),
        byte_difference(committed_byte(value_a, blinding_a), committed_byte(value_b, blinding_b))
            == committed_byte(value_a - value_b, byte_difference(blinding_a, blinding_b)),
{
    let a = value_a + blinding_a;
    let b = value_b + blinding_b;
    lemma_add_mod_noop(a, b, 256);
    lemma_add_mod_noop_right(value_a + value_b, blinding_a + blinding_b, 256);
    lemma_sub_mod_noop(a, b, 256);
    lemma_add_mod_noop_right(value_a - value_b, blinding_a - blinding_b, 256);
}

/// Combining mirrors arithmetic on the committed values: the sum of two
/// commitments commits to the sum of their values under the sum of their
/// blindings, and likewise for the difference.
pub proof fn lemma_combining_mirrors_values(
    value_a: int,
    blinding_a: Seq<u8>,
    value_b: int,
    blinding_b: Seq<u8>,
)
    requires
        is_commitment(blinding_a),
        is_commitment(blinding_b),
    ensures
        commitment_sum(commitment_to(value_a, blinding_a), commitment_to(value_b, blinding_b))
            == commitment_to(value_a + value_b, commitment_sum(blinding_a, blinding_b)),
        commitment_difference(
            commitment_to(value_a, blinding_a),
            commitment_to(value_b, blinding_b),
        ) == commitment_to(value_a - value_b, commitment_difference(blinding_a, blinding_b)),
{
    let sum = commitment_sum(commitment_to(value_a, blinding_a), commitment_to(value_b, blinding_b));
    let difference = commitment_difference(
        commitment_to(value_a, blinding_a),
        commitment_to(value_b, blinding_b),
    );
    let sum_of_values = commitment_to(value_a + value_b, commitment_sum(blinding_a, blinding_b));
    let difference_of_values = commitment_to(
        value_a - value_b,
        commitment_difference(blinding_a, blinding_b),
    );
    assert forall|i: int| 0 <= i < COMMITMENT_BYTES implies sum[i] == sum_of_values[i]
        && difference[i] == difference_of_values[i] by {
        lemma_committed_bytes_combine(value_a, blinding_a[i], value_b, blinding_b[i]);
    }
    assert(sum =~= sum_of_values);
    assert(difference =~= difference_of_values);
}

/// A commitment less a commitment to the same value under the same
/// blinding is the zero commitment, which commits to zero under the zero
/// blinding.
pub proof fn lemma_value_less_itself_commits_to_zero(value: int, blinding: Seq<u8>)
    requires
        is_commitment(blinding),
    ensures
        commitment_difference(commitment_to(value, blinding), commitment_to(value, blinding))
            == zero_commitment(),
        zero_commitment() == commitment_to(0, zero_commitment()),
{
    assert(commitment_difference(commitment_to(value, blinding), commitment_to(value, blinding))
        =~= zero_commitment());
    assert(zero_commitment() =~= commitment_to(0, zero_commitment()));
}

/// The scheme is not binding: a commitment to one value is also a
/// commitment to any other value, under another blinding.
pub proof fn lemma_every_commitment_opens_to_every_value(
    value: int,
    blinding: Seq<u8>,
    other_value: int,
)
    requires
        is_commitment(blinding),
    ensures
        exists|other_blinding: Seq<u8>|
            is_commitment(other_blinding) && #[trigger] commitment_to(other_value, other_blinding)
                == commitment_to(value, blinding),
{
    let other_blinding = Seq::new(
        COMMITMENT_BYTES as nat,
        |i: int| committed_byte(value - other_value, blinding[i]),
    );
    assert forall|i: int| 0 <= i < COMMITMENT_BYTES implies commitment_to(
        other_value,
        other_blinding,
    )[i] == commitment_to(value, blinding)[i] by {
        lemma_add_mod_noop_right(other_value, value - other_value + blinding[i], 256);
    }
    assert(commitment_to(other_value, other_blinding) =~= commitment_to(value, blinding));
}

} // verus!
