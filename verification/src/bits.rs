//! Bit-level rules shared by the drivers: reading, setting, clearing and
//! toggling one bit of a control byte, where bit `i` stands for channel or
//! pin `i` (bit 0 is the least significant bit and always channel 0).

use vstd::prelude::*;

verus! {

/// Bit `i` of `v`, as a boolean.
pub open spec fn bit_get(v: u8, i: u8) -> bool {
    (v >> i) & 1 == 1
}

/// `v` with bit `i` set.
pub open spec fn bit_set(v: u8, i: u8) -> u8 {
    v | (1u8 << i)
}

/// `v` with bit `i` cleared.
pub open spec fn bit_clear(v: u8, i: u8) -> u8 {
    v & !(1u8 << i)
}

/// `v` with bit `i` flipped.
pub open spec fn bit_toggle(v: u8, i: u8) -> u8 {
    v ^ (1u8 << i)
}

/// Read bit `i` of `v`.
pub fn read_bit(v: u8, i: u8) -> (r: bool)
    requires
        i < 8,
    ensures
        r == bit_get(v, i),
{
    (v >> i) & 1 == 1
}

/// Return `v` with bit `i` driven to `set`, all other bits unchanged.
pub fn write_bit(v: u8, i: u8, set: bool) -> (r: u8)
    requires
        i < 8,
    ensures
        r == if set {
            bit_set(v, i)
        } else {
            bit_clear(v, i)
        },
{
    if set {
        v | (1u8 << i)
    } else {
        v & !(1u8 << i)
    }
}

/// Return `v` with bit `i` flipped, all other bits unchanged.
pub fn flip_bit(v: u8, i: u8) -> (r: u8)
    requires
        i < 8,
    ensures
        r == bit_toggle(v, i),
{
    v ^ (1u8 << i)
}

/// Writing one bit touches that bit alone: bit `i` of the result is the
/// written value, and every other bit keeps its old value.
pub proof fn lemma_write_bit_effect(v: u8, i: u8, j: u8)
    requires
        i < 8,
        j < 8,
    ensures
        bit_get(bit_set(v, i), j) == (i == j || bit_get(v, j)),
        bit_get(bit_clear(v, i), j) == (i != j && bit_get(v, j)),
        bit_get(bit_toggle(v, i), j) == if i == j {
            !bit_get(v, j)
        } else {
            bit_get(v, j)
        },
{
    assert(((v | (1u8 << i)) >> j) & 1 == 1 <==> (i == j || ((v >> j) & 1 == 1))) by (bit_vector)
        requires
            i < 8,
            j < 8,
    ;
    assert(((v & !(1u8 << i)) >> j) & 1 == 1 <==> (i != j && ((v >> j) & 1 == 1))) by (bit_vector)
        requires
            i < 8,
            j < 8,
    ;
    assert(((v ^ (1u8 << i)) >> j) & 1 == 1 <==> if i == j {
        !((v >> j) & 1 == 1)
    } else {
        ((v >> j) & 1 == 1)
    }) by (bit_vector)
        requires
            i < 8,
            j < 8,
    ;
}

/// Driving a bit to a value is idempotent, and toggling twice restores the
/// byte: the second of two equal read-modify-write operations writes the
/// same byte the first one wrote.
pub proof fn lemma_write_bit_idempotent(v: u8, i: u8)
    requires
        i < 8,
    ensures
        bit_set(bit_set(v, i), i) == bit_set(v, i),
        bit_clear(bit_clear(v, i), i) == bit_clear(v, i),
        bit_toggle(bit_toggle(v, i), i) == v,
{
    assert((v | (1u8 << i)) | (1u8 << i) == v | (1u8 << i)) by (bit_vector);
    assert((v & !(1u8 << i)) & !(1u8 << i) == v & !(1u8 << i)) by (bit_vector);
    assert((v ^ (1u8 << i)) ^ (1u8 << i) == v) by (bit_vector);
}

} // verus!
