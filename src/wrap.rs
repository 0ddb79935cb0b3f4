use vstd::arithmetic::div_mod::{
    lemma_mod_equivalence, lemma_mod_multiples_vanish, lemma_mod_sub_multiples_vanish,
    lemma_small_mod,
};
use vstd::prelude::*;

verus! {

/// The remainder of `i` modulo `m`, in `[0, m)`. For `m == 2^n` it is the
/// number that the low `n` bits of `i` stand for, read as unsigned.
pub open spec fn wrap_unsigned(i: int, m: int) -> int {
    i % m
}

/// The remainder of `i` modulo `m`, moved into `[-m/2, m/2)`. For `m == 2^n`
/// it is the number that the low `n` bits of `i` stand for, read as two's
/// complement.
pub open spec fn wrap_signed(i: int, m: int) -> int {
    if i % m < m / 2 {
        i % m
    } else {
        i % m - m
    }
}

/// The integers that some primitive integer kind can hold.
pub open spec fn in_primitive_range(i: int) -> bool {
    i64::MIN <= i <= u64::MAX
}

/// Reducing modulo `m` lands in `[0, m)`, keeps what is there, and moves `i`
/// by a multiple of `m`.
pub proof fn lemma_wrap_unsigned(i: int, m: int)
    requires
        m > 0,
    ensures
        0 <= wrap_unsigned(i, m) < m,
        0 <= i < m ==> wrap_unsigned(i, m) == i,
        (wrap_unsigned(i, m) - i) % m == 0,
{
    let r = i % m;
    assert(0 <= r < m);
    if 0 <= i < m {
        lemma_small_mod(i as nat, m as nat);
    }
    lemma_small_mod(r as nat, m as nat);
    lemma_mod_equivalence(r, i, m);
}

/// Reducing into `[-m/2, m/2)` lands there, keeps what is there, and moves
/// `i` by a multiple of `m`.
pub proof fn lemma_wrap_signed(i: int, m: int)
    requires
        m > 0,
        m % 2 == 0,
    ensures
        -(m / 2) <= wrap_signed(i, m) < m / 2,
        -(m / 2) <= i < m / 2 ==> wrap_signed(i, m) == i,
        (wrap_signed(i, m) - i) % m == 0,
{
    let r = i % m;
    assert(0 <= r < m);
    lemma_small_mod(r as nat, m as nat);
    if 0 <= i < m / 2 {
        lemma_small_mod(i as nat, m as nat);
    }
    if -(m / 2) <= i < 0 {
        lemma_mod_multiples_vanish(1, i, m);
        lemma_small_mod((m + i) as nat, m as nat);
    }
    if r < m / 2 {
        lemma_mod_equivalence(r, i, m);
    } else {
        lemma_mod_sub_multiples_vanish(r, m);
        lemma_mod_equivalence(r - m, i, m);
    }
}

/// `as u8` on an integer that some primitive kind holds keeps its low bits,
/// read as unsigned.
pub(crate) proof fn lemma_as_u8(i: int)
    requires
        in_primitive_range(i),
    ensures
        (i as u8) as int == wrap_unsigned(i, 256),
{
    let x = i as i128;
    assert((x as u8) as i128 == x % 256)
        by (bit_vector);
}

/// `as u16` on an integer that some primitive kind holds keeps its low bits,
/// read as unsigned.
pub(crate) proof fn lemma_as_u16(i: int)
    requires
        in_primitive_range(i),
    ensures
        (i as u16) as int == wrap_unsigned(i, 0x1_0000),
{
    let x = i as i128;
    assert((x as u16) as i128 == x % 0x1_0000)
        by (bit_vector);
}

/// `as u32` on an integer that some primitive kind holds keeps its low bits,
/// read as unsigned.
pub(crate) proof fn lemma_as_u32(i: int)
    requires
        in_primitive_range(i),
    ensures
        (i as u32) as int == wrap_unsigned(i, 0x1_0000_0000),
{
    let x = i as i128;
    assert((x as u32) as i128 == x % 0x1_0000_0000)
        by (bit_vector);
}

/// `as u64` on an integer that some primitive kind holds keeps its low bits,
/// read as unsigned.
pub(crate) proof fn lemma_as_u64(i: int)
    requires
        in_primitive_range(i),
    ensures
        (i as u64) as int == wrap_unsigned(i, 0x1_0000_0000_0000_0000),
{
    let x = i as i128;
    assert((x as u64) as i128 == x % 0x1_0000_0000_0000_0000)
        by (bit_vector);
}

/// `as usize` on an integer that some primitive kind holds keeps its low bits,
/// read as unsigned.
pub(crate) proof fn lemma_as_usize(i: int)
    requires
        in_primitive_range(i),
    ensures
        (i as usize) as int == wrap_unsigned(i, usize::MAX + 1),
{
    let x = i as i128;
    if usize::BITS == 64 {
        assert((x as usize) as i128 == x % 0x1_0000_0000_0000_0000) by (bit_vector)
            requires
                usize::BITS == 64,
        ;
        assert(usize::MAX + 1 == 0x1_0000_0000_0000_0000);
    } else {
        assert((x as usize) as i128 == x % 0x1_0000_0000) by (bit_vector)
            requires
                usize::BITS == 32,
        ;
        assert(usize::MAX + 1 == 0x1_0000_0000);
    }
}

/// `as i8` on an integer that some primitive kind holds keeps its low bits,
/// read as two's complement.
pub(crate) proof fn lemma_as_i8(i: int)
    requires
        in_primitive_range(i),
    ensures
        (i as i8) as int == wrap_signed(i, 256),
{
    let x = i as i128;
    assert((x as i8) as i128 == (if x % 256 < 128 { x % 256 } else { (x % 256 - 256) as i128 }))
        by (bit_vector);
}

/// `as i16` on an integer that some primitive kind holds keeps its low bits,
/// read as two's complement.
pub(crate) proof fn lemma_as_i16(i: int)
    requires
        in_primitive_range(i),
    ensures
        (i as i16) as int == wrap_signed(i, 0x1_0000),
{
    let x = i as i128;
    assert((x as i16) as i128 == (if x % 0x1_0000 < 0x8000 { x % 0x1_0000 } else { (x % 0x1_0000 - 0x1_0000) as i128 }))
        by (bit_vector);
}

/// `as i32` on an integer that some primitive kind holds keeps its low bits,
/// read as two's complement.
pub(crate) proof fn lemma_as_i32(i: int)
    requires
        in_primitive_range(i),
    ensures
        (i as i32) as int == wrap_signed(i, 0x1_0000_0000),
{
    let x = i as i128;
    assert((x as i32) as i128 == (if x % 0x1_0000_0000 < 0x8000_0000 { x % 0x1_0000_0000 } else { (x % 0x1_0000_0000 - 0x1_0000_0000) as i128 }))
        by (bit_vector);
}

/// `as i64` on an integer that some primitive kind holds keeps its low bits,
/// read as two's complement.
pub(crate) proof fn lemma_as_i64(i: int)
    requires
        in_primitive_range(i),
    ensures
        (i as i64) as int == wrap_signed(i, 0x1_0000_0000_0000_0000),
{
    let x = i as i128;
    assert((x as i64) as i128 == (if x % 0x1_0000_0000_0000_0000 < 0x8000_0000_0000_0000 { x % 0x1_0000_0000_0000_0000 } else { (x % 0x1_0000_0000_0000_0000 - 0x1_0000_0000_0000_0000) as i128 }))
        by (bit_vector);
}

/// `as isize` on an integer that some primitive kind holds keeps its low bits,
/// read as two's complement.
pub(crate) proof fn lemma_as_isize(i: int)
    requires
        in_primitive_range(i),
    ensures
        (i as isize) as int == wrap_signed(i, usize::MAX + 1),
{
    let x = i as i128;
    if usize::BITS == 64 {
        assert((x as isize) as i128 == (if x % 0x1_0000_0000_0000_0000 < 0x8000_0000_0000_0000 { x % 0x1_0000_0000_0000_0000 } else { (x % 0x1_0000_0000_0000_0000 - 0x1_0000_0000_0000_0000) as i128 })) by (bit_vector)
            requires
                usize::BITS == 64,
        ;
        assert(usize::MAX + 1 == 0x1_0000_0000_0000_0000);
    } else {
        assert((x as isize) as i128 == (if x % 0x1_0000_0000 < 0x8000_0000 { x % 0x1_0000_0000 } else { (x % 0x1_0000_0000 - 0x1_0000_0000) as i128 })) by (bit_vector)
            requires
                usize::BITS == 32,
        ;
        assert(usize::MAX + 1 == 0x1_0000_0000);
    }
}

} // verus!
