//! The arithmetic, the comparisons and the conversions of the Glulx opcodes,
//! as functions of their operands.

use vstd::prelude::*;

verus! {

/// The 32-bit signed value that is congruent to `x` modulo 2^32.
pub open spec fn wrap_i32(x: int) -> i32 {
    if x % 0x1_0000_0000 > i32::MAX {
        (x % 0x1_0000_0000 - 0x1_0000_0000) as i32
    } else {
        (x % 0x1_0000_0000) as i32
    }
}

/// The absolute value of `x`.
pub open spec fn magnitude(x: int) -> int {
    if x < 0 {
        -x
    } else {
        x
    }
}

/// The quotient of `a` by `b`, rounded towards zero.
pub open spec fn trunc_div(a: int, b: int) -> int
    recommends
        b != 0,
{
    if (a < 0) != (b < 0) {
        -(magnitude(a) / magnitude(b))
    } else {
        magnitude(a) / magnitude(b)
    }
}

/// The remainder of `a` by `b` that goes with `trunc_div`: it has the sign
/// of `a`.
pub open spec fn trunc_rem(a: int, b: int) -> int
    recommends
        b != 0,
{
    if a < 0 {
        -(magnitude(a) % magnitude(b))
    } else {
        magnitude(a) % magnitude(b)
    }
}

/// The low 16 bits of `x`, read as a signed value.
pub open spec fn sign_extend_16(x: u32) -> i32 {
    if x % 0x1_0000 >= 0x8000 {
        (x % 0x1_0000 - 0x1_0000) as i32
    } else {
        (x % 0x1_0000) as i32
    }
}

/// The low 8 bits of `x`, read as a signed value.
pub open spec fn sign_extend_8(x: u32) -> i32 {
    if x % 0x100 >= 0x80 {
        (x % 0x100 - 0x100) as i32
    } else {
        (x % 0x100) as i32
    }
}

/// `l1` shifted left by `count` bits; zero where `count` is 32 or more.
pub open spec fn shift_left(l1: u32, count: u32) -> u32 {
    if count >= 32 {
        0
    } else {
        l1 << count
    }
}

/// `l1` shifted right by `count` bits, with zeros coming in; zero where
/// `count` is 32 or more.
pub open spec fn shift_right(l1: u32, count: u32) -> u32 {
    if count >= 32 {
        0
    } else {
        l1 >> count
    }
}

/// `l1` shifted right by `count` bits, with copies of the sign bit coming
/// in; where `count` is 32 or more, -1 for a negative `l1` and else zero.
pub open spec fn shift_right_signed(l1: i32, count: u32) -> i32 {
    if count >= 32 {
        if l1 < 0 {
            -1i32
        } else {
            0i32
        }
    } else {
        l1 >> count
    }
}

/// The sum of `l1` and `l2`, modulo 2^32.
pub fn op_add(l1: i32, l2: i32) -> (r: i32)
    ensures
        r == wrap_i32(l1 + l2),
{
    l1.wrapping_add(l2)
}

/// The difference of `l1` and `l2`, modulo 2^32.
pub fn op_sub(l1: i32, l2: i32) -> (r: i32)
    ensures
        r == wrap_i32(l1 - l2),
{
    l1.wrapping_sub(l2)
}

/// The product of `l1` and `l2`, modulo 2^32.
pub fn op_mul(l1: i32, l2: i32) -> (r: i32)
    ensures
        r == wrap_i32(l1 * l2),
{
    l1.wrapping_mul(l2)
}

/// The quotient of `l1` by `l2`, rounded towards zero, modulo 2^32.
pub fn op_div(l1: i32, l2: i32) -> (r: i32)
    requires
        l2 != 0,
    ensures
        r == wrap_i32(trunc_div(l1 as int, l2 as int)),
{
    let a: i64 = l1 as i64;
    let b: i64 = l2 as i64;
    let ua: i64 = if a < 0 {
        -a
    } else {
        a
    };
    let ub: i64 = if b < 0 {
        -b
    } else {
        b
    };
    let q: i64 = ua / ub;
    assert(0 <= q <= ua) by (nonlinear_arith)
        requires
            q == ua / ub,
            ua >= 0,
            ub > 0,
    ;
    let sq: i64 = if (a < 0) != (b < 0) {
        -q
    } else {
        q
    };
    if sq > 0x7FFF_FFFF {
        i32::MIN
    } else {
        sq as i32
    }
}

/// The remainder of `l1` by `l2`, with the sign of `l1`.
pub fn op_mod(l1: i32, l2: i32) -> (r: i32)
    requires
        l2 != 0,
    ensures
        r == trunc_rem(l1 as int, l2 as int),
{
    let a: i64 = l1 as i64;
    let b: i64 = l2 as i64;
    let ua: i64 = if a < 0 {
        -a
    } else {
        a
    };
    let ub: i64 = if b < 0 {
        -b
    } else {
        b
    };
    let m: i64 = ua % ub;
    if a < 0 {
        (-m) as i32
    } else {
        m as i32
    }
}

/// The negation of `l1`, modulo 2^32.
pub fn op_neg(l1: i32) -> (r: i32)
    ensures
        r == wrap_i32(-l1),
{
    0i32.wrapping_sub(l1)
}

/// The bitwise and of `l1` and `l2`.
pub fn op_bitand(l1: i32, l2: i32) -> (r: i32)
    ensures
        r == l1 & l2,
{
    l1 & l2
}

/// The bitwise or of `l1` and `l2`.
pub fn op_bitor(l1: i32, l2: i32) -> (r: i32)
    ensures
        r == l1 | l2,
{
    l1 | l2
}

/// The bitwise exclusive or of `l1` and `l2`.
pub fn op_bitxor(l1: i32, l2: i32) -> (r: i32)
    ensures
        r == l1 ^ l2,
{
    l1 ^ l2
}

/// The bitwise complement of `l1`.
pub fn op_bitnot(l1: i32) -> (r: i32)
    ensures
        r == !l1,
{
    !l1
}

/// `l1` shifted left by `l2` bits, `l2` taken as unsigned; zero where that
/// is 32 or more.
pub fn op_shiftl(l1: i32, l2: i32) -> (r: i32)
    ensures
        r == shift_left(l1 as u32, l2 as u32) as i32,
{
    let value = #[verifier::truncate]
    (l1 as u32);
    let count = #[verifier::truncate]
    (l2 as u32);
    let shifted: u32 = if count >= 32 {
        0
    } else {
        value << count
    };
    #[verifier::truncate]
    (shifted as i32)
}

/// `l1` shifted right by `l2` bits, `l2` taken as unsigned, keeping the
/// sign; where that is 32 or more, -1 for a negative `l1` and else zero.
pub fn op_sshiftr(l1: i32, l2: i32) -> (r: i32)
    ensures
        r == shift_right_signed(l1, l2 as u32),
{
    let count = #[verifier::truncate]
    (l2 as u32);
    if count >= 32 {
        if l1 < 0 {
            -1
        } else {
            0
        }
    } else {
        l1 >> count
    }
}

/// `l1` shifted right by `l2` bits, with zeros coming in; zero where `l2`
/// is 32 or more.
pub fn op_ushiftr(l1: u32, l2: u32) -> (r: u32)
    ensures
        r == shift_right(l1, l2),
{
    if l2 >= 32 {
        0
    } else {
        l1 >> l2
    }
}

/// Whether `l1` is zero.
pub fn op_jz(l1: i32) -> (r: bool)
    ensures
        r == (l1 == 0),
{
    l1 == 0
}

/// Whether `l1` is not zero.
pub fn op_jnz(l1: i32) -> (r: bool)
    ensures
        r == (l1 != 0),
{
    l1 != 0
}

/// Whether `l1` equals `l2`.
pub fn op_jeq(l1: i32, l2: i32) -> (r: bool)
    ensures
        r == (l1 == l2),
{
    l1 == l2
}

/// Whether `l1` differs from `l2`.
pub fn op_jne(l1: i32, l2: i32) -> (r: bool)
    ensures
        r == (l1 != l2),
{
    l1 != l2
}

/// Whether `l1` is less than `l2`, both signed.
pub fn op_jlt(l1: i32, l2: i32) -> (r: bool)
    ensures
        r == (l1 < l2),
{
    l1 < l2
}

/// Whether `l1` is at least `l2`, both signed.
pub fn op_jge(l1: i32, l2: i32) -> (r: bool)
    ensures
        r == (l1 >= l2),
{
    l1 >= l2
}

/// Whether `l1` is greater than `l2`, both signed.
pub fn op_jgt(l1: i32, l2: i32) -> (r: bool)
    ensures
        r == (l1 > l2),
{
    l1 > l2
}

/// Whether `l1` is at most `l2`, both signed.
pub fn op_jle(l1: i32, l2: i32) -> (r: bool)
    ensures
        r == (l1 <= l2),
{
    l1 <= l2
}

/// Whether `l1` is less than `l2`, both unsigned.
pub fn op_jltu(l1: u32, l2: u32) -> (r: bool)
    ensures
        r == (l1 < l2),
{
    l1 < l2
}

/// Whether `l1` is at least `l2`, both unsigned.
pub fn op_jgeu(l1: u32, l2: u32) -> (r: bool)
    ensures
        r == (l1 >= l2),
{
    l1 >= l2
}

/// Whether `l1` is greater than `l2`, both unsigned.
pub fn op_jgtu(l1: u32, l2: u32) -> (r: bool)
    ensures
        r == (l1 > l2),
{
    l1 > l2
}

/// Whether `l1` is at most `l2`, both unsigned.
pub fn op_jleu(l1: u32, l2: u32) -> (r: bool)
    ensures
        r == (l1 <= l2),
{
    l1 <= l2
}

/// The 32-bit value `l1`, as it is.
pub fn op_copy(l1: u32) -> (r: u32)
    ensures
        r == l1,
{
    l1
}

/// The 16-bit value `l1`, as it is.
pub fn op_copys(l1: u16) -> (r: u16)
    ensures
        r == l1,
{
    l1
}

/// The 8-bit value `l1`, as it is.
pub fn op_copyb(l1: u8) -> (r: u8)
    ensures
        r == l1,
{
    l1
}

/// The low 16 bits of `l1`, sign-extended to 32 bits.
pub fn op_sexs(l1: u32) -> (r: i32)
    ensures
        r == sign_extend_16(l1),
{
    let low: u32 = l1 % 0x1_0000;
    if low >= 0x8000 {
        (low as i32) - 0x1_0000
    } else {
        low as i32
    }
}

/// The low 8 bits of `l1`, sign-extended to 32 bits.
pub fn op_sexb(l1: u32) -> (r: i32)
    ensures
        r == sign_extend_8(l1),
{
    let low: u32 = l1 % 0x100;
    if low >= 0x80 {
        (low as i32) - 0x100
    } else {
        low as i32
    }
}

} // verus!
