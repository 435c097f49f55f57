//! The instructions that compute a value from their operands and store it.

use crate::interpreter::{Fault, Glulx, Save, VmView};
use crate::opcodes::{
    self, shift_left, shift_right, shift_right_signed, sign_extend_16, sign_extend_8, trunc_div,
    trunc_rem, wrap_i32,
};
use vstd::prelude::*;

verus! {

impl VmView {
    /// ADD: the sum of `l1` and `l2`, modulo 2^32, goes to `s1`.
    pub open spec fn op_add(self, l1: i32, l2: i32, s1: Save) -> VmView {
        self.save_u32(s1, wrap_i32(l1 + l2) as u32)
    }

    /// SUB: the difference of `l1` and `l2`, modulo 2^32, goes to `s1`.
    pub open spec fn op_sub(self, l1: i32, l2: i32, s1: Save) -> VmView {
        self.save_u32(s1, wrap_i32(l1 - l2) as u32)
    }

    /// MUL: the product of `l1` and `l2`, modulo 2^32, goes to `s1`.
    pub open spec fn op_mul(self, l1: i32, l2: i32, s1: Save) -> VmView {
        self.save_u32(s1, wrap_i32(l1 * l2) as u32)
    }

    /// DIV: the quotient of `l1` by `l2`, rounded towards zero, goes to `s1`.
    /// The machine stops where `l2` is zero.
    pub open spec fn op_div(self, l1: i32, l2: i32, s1: Save) -> VmView {
        if l2 == 0 {
            self.halted(Fault::DivisionByZero)
        } else {
            self.save_u32(s1, wrap_i32(trunc_div(l1 as int, l2 as int)) as u32)
        }
    }

    /// MOD: the remainder of `l1` by `l2`, with the sign of `l1`, goes to `s1`.
    /// The machine stops where `l2` is zero.
    pub open spec fn op_mod(self, l1: i32, l2: i32, s1: Save) -> VmView {
        if l2 == 0 {
            self.halted(Fault::DivisionByZero)
        } else {
            self.save_u32(s1, trunc_rem(l1 as int, l2 as int) as i32 as u32)
        }
    }

    /// NEG: the negation of `l1`, modulo 2^32, goes to `s1`.
    pub open spec fn op_neg(self, l1: i32, s1: Save) -> VmView {
        self.save_u32(s1, wrap_i32(-l1) as u32)
    }

    /// BITAND: the bitwise and of `l1` and `l2` goes to `s1`.
    pub open spec fn op_bitand(self, l1: i32, l2: i32, s1: Save) -> VmView {
        self.save_u32(s1, (l1 & l2) as u32)
    }

    /// BITOR: the bitwise or of `l1` and `l2` goes to `s1`.
    pub open spec fn op_bitor(self, l1: i32, l2: i32, s1: Save) -> VmView {
        self.save_u32(s1, (l1 | l2) as u32)
    }

    /// BITXOR: the bitwise exclusive or of `l1` and `l2` goes to `s1`.
    pub open spec fn op_bitxor(self, l1: i32, l2: i32, s1: Save) -> VmView {
        self.save_u32(s1, (l1 ^ l2) as u32)
    }

    /// BITNOT: the bitwise complement of `l1` goes to `s1`.
    pub open spec fn op_bitnot(self, l1: i32, s1: Save) -> VmView {
        self.save_u32(s1, (!l1) as u32)
    }

    /// SHIFTL: `l1` shifted left by `l2` bits goes to `s1`; zero where `l2`
    /// is 32 or more.
    pub open spec fn op_shiftl(self, l1: u32, l2: u32, s1: Save) -> VmView {
        self.save_u32(s1, shift_left(l1, l2))
    }

    /// SSHIFTR: `l1` shifted right by `l2` bits, keeping its sign, goes to
    /// `s1`; `l2` counts as unsigned, and where it is 32 or more the result is
    /// -1 for a negative `l1` and else zero.
    pub open spec fn op_sshiftr(self, l1: i32, l2: i32, s1: Save) -> VmView {
        self.save_u32(s1, shift_right_signed(l1, l2 as u32) as u32)
    }

    /// USHIFTR: `l1` shifted right by `l2` bits, with zeros coming in, goes
    /// to `s1`; zero where `l2` is 32 or more.
    pub open spec fn op_ushiftr(self, l1: u32, l2: u32, s1: Save) -> VmView {
        self.save_u32(s1, shift_right(l1, l2))
    }

    /// COPY: the 32-bit value `l1` goes to `s1`.
    pub open spec fn op_copy(self, l1: u32, s1: Save) -> VmView {
        self.save_u32(s1, l1)
    }

    /// COPYS: the 16-bit value `l1` goes to `s1`.
    pub open spec fn op_copys(self, l1: u16, s1: Save) -> VmView {
        self.save_u16(s1, l1)
    }

    /// COPYB: the 8-bit value `l1` goes to `s1`.
    pub open spec fn op_copyb(self, l1: u8, s1: Save) -> VmView {
        self.save_u8(s1, l1)
    }

    /// SEXS: the low 16 bits of `l1`, sign-extended to 32 bits, go to `s1`.
    pub open spec fn op_sexs(self, l1: u32, s1: Save) -> VmView {
        self.save_u32(s1, sign_extend_16(l1) as u32)
    }

    /// SEXB: the low 8 bits of `l1`, sign-extended to 32 bits, go to `s1`.
    pub open spec fn op_sexb(self, l1: u32, s1: Save) -> VmView {
        self.save_u32(s1, sign_extend_8(l1) as u32)
    }
}

impl Glulx {
    /// ADD: the sum of `l1` and `l2`, modulo 2^32, goes to `s1`.
    pub fn op_add(&mut self, l1: i32, l2: i32, s1: Save)
        requires
            old(self)@.wf(),
        ensures
            final(self)@ == old(self)@.op_add(l1, l2, s1),
            final(self)@.wf(),
    {
        self.save_i32(s1, opcodes::op_add(l1, l2))
    }

    /// SUB: the difference of `l1` and `l2`, modulo 2^32, goes to `s1`.
    pub fn op_sub(&mut self, l1: i32, l2: i32, s1: Save)
        requires
            old(self)@.wf(),
        ensures
            final(self)@ == old(self)@.op_sub(l1, l2, s1),
            final(self)@.wf(),
    {
        self.save_i32(s1, opcodes::op_sub(l1, l2))
    }

    /// MUL: the product of `l1` and `l2`, modulo 2^32, goes to `s1`.
    pub fn op_mul(&mut self, l1: i32, l2: i32, s1: Save)
        requires
            old(self)@.wf(),
        ensures
            final(self)@ == old(self)@.op_mul(l1, l2, s1),
            final(self)@.wf(),
    {
        self.save_i32(s1, opcodes::op_mul(l1, l2))
    }

    /// DIV: the quotient of `l1` by `l2`, rounded towards zero, goes to `s1`.
    /// The machine stops where `l2` is zero.
    pub fn op_div(&mut self, l1: i32, l2: i32, s1: Save)
        requires
            old(self)@.wf(),
        ensures
            final(self)@ == old(self)@.op_div(l1, l2, s1),
            final(self)@.wf(),
    {
        if l2 == 0 {
            self.halt(Fault::DivisionByZero)
        } else {
            self.save_i32(s1, opcodes::op_div(l1, l2))
        }
    }

    /// MOD: the remainder of `l1` by `l2`, with the sign of `l1`, goes to `s1`.
    /// The machine stops where `l2` is zero.
    pub fn op_mod(&mut self, l1: i32, l2: i32, s1: Save)
        requires
            old(self)@.wf(),
        ensures
            final(self)@ == old(self)@.op_mod(l1, l2, s1),
            final(self)@.wf(),
    {
        if l2 == 0 {
            self.halt(Fault::DivisionByZero)
        } else {
            self.save_i32(s1, opcodes::op_mod(l1, l2))
        }
    }

    /// NEG: the negation of `l1`, modulo 2^32, goes to `s1`.
    pub fn op_neg(&mut self, l1: i32, s1: Save)
        requires
            old(self)@.wf(),
        ensures
            final(self)@ == old(self)@.op_neg(l1, s1),
            final(self)@.wf(),
    {
        self.save_i32(s1, opcodes::op_neg(l1))
    }

    /// BITAND: the bitwise and of `l1` and `l2` goes to `s1`.
    pub fn op_bitand(&mut self, l1: i32, l2: i32, s1: Save)
        requires
            old(self)@.wf(),
        ensures
            final(self)@ == old(self)@.op_bitand(l1, l2, s1),
            final(self)@.wf(),
    {
        self.save_i32(s1, opcodes::op_bitand(l1, l2))
    }

    /// BITOR: the bitwise or of `l1` and `l2` goes to `s1`.
    pub fn op_bitor(&mut self, l1: i32, l2: i32, s1: Save)
        requires
            old(self)@.wf(),
        ensures
            final(self)@ == old(self)@.op_bitor(l1, l2, s1),
            final(self)@.wf(),
    {
        self.save_i32(s1, opcodes::op_bitor(l1, l2))
    }

    /// BITXOR: the bitwise exclusive or of `l1` and `l2` goes to `s1`.
    pub fn op_bitxor(&mut self, l1: i32, l2: i32, s1: Save)
        requires
            old(self)@.wf(),
        ensures
            final(self)@ == old(self)@.op_bitxor(l1, l2, s1),
            final(self)@.wf(),
    {
        self.save_i32(s1, opcodes::op_bitxor(l1, l2))
    }

    /// BITNOT: the bitwise complement of `l1` goes to `s1`.
    pub fn op_bitnot(&mut self, l1: i32, s1: Save)
        requires
            old(self)@.wf(),
        ensures
            final(self)@ == old(self)@.op_bitnot(l1, s1),
            final(self)@.wf(),
    {
        self.save_i32(s1, opcodes::op_bitnot(l1))
    }

    /// SHIFTL: `l1` shifted left by `l2` bits goes to `s1`; zero where `l2`
    /// is 32 or more.
    pub fn op_shiftl(&mut self, l1: u32, l2: u32, s1: Save)
        requires
            old(self)@.wf(),
        ensures
            final(self)@ == old(self)@.op_shiftl(l1, l2, s1),
            final(self)@.wf(),
    {
        let shifted: u32 = if l2 >= 32 {
            0
        } else {
            l1 << l2
        };
        self.save_u32(s1, shifted)
    }

    /// SSHIFTR: `l1` shifted right by `l2` bits, keeping its sign, goes to
    /// `s1`; `l2` counts as unsigned, and where it is 32 or more the result is
    /// -1 for a negative `l1` and else zero.
    pub fn op_sshiftr(&mut self, l1: i32, l2: i32, s1: Save)
        requires
            old(self)@.wf(),
        ensures
            final(self)@ == old(self)@.op_sshiftr(l1, l2, s1),
            final(self)@.wf(),
    {
        self.save_i32(s1, opcodes::op_sshiftr(l1, l2))
    }

    /// USHIFTR: `l1` shifted right by `l2` bits, with zeros coming in, goes
    /// to `s1`; zero where `l2` is 32 or more.
    pub fn op_ushiftr(&mut self, l1: u32, l2: u32, s1: Save)
        requires
            old(self)@.wf(),
        ensures
            final(self)@ == old(self)@.op_ushiftr(l1, l2, s1),
            final(self)@.wf(),
    {
        self.save_u32(s1, opcodes::op_ushiftr(l1, l2))
    }

    /// COPY: the 32-bit value `l1` goes to `s1`.
    pub fn op_copy(&mut self, l1: u32, s1: Save)
        requires
            old(self)@.wf(),
        ensures
            final(self)@ == old(self)@.op_copy(l1, s1),
            final(self)@.wf(),
    {
        self.save_u32(s1, opcodes::op_copy(l1))
    }

    /// COPYS: the 16-bit value `l1` goes to `s1`.
    pub fn op_copys(&mut self, l1: u16, s1: Save)
        requires
            old(self)@.wf(),
        ensures
            final(self)@ == old(self)@.op_copys(l1, s1),
            final(self)@.wf(),
    {
        self.save_u16(s1, opcodes::op_copys(l1))
    }

    /// COPYB: the 8-bit value `l1` goes to `s1`.
    pub fn op_copyb(&mut self, l1: u8, s1: Save)
        requires
            old(self)@.wf(),
        ensures
            final(self)@ == old(self)@.op_copyb(l1, s1),
            final(self)@.wf(),
    {
        self.save_u8(s1, opcodes::op_copyb(l1))
    }

    /// SEXS: the low 16 bits of `l1`, sign-extended to 32 bits, go to `s1`.
    pub fn op_sexs(&mut self, l1: u32, s1: Save)
        requires
            old(self)@.wf(),
        ensures
            final(self)@ == old(self)@.op_sexs(l1, s1),
            final(self)@.wf(),
    {
        self.save_i32(s1, opcodes::op_sexs(l1))
    }

    /// SEXB: the low 8 bits of `l1`, sign-extended to 32 bits, go to `s1`.
    pub fn op_sexb(&mut self, l1: u32, s1: Save)
        requires
            old(self)@.wf(),
        ensures
            final(self)@ == old(self)@.op_sexb(l1, s1),
            final(self)@.wf(),
    {
        self.save_i32(s1, opcodes::op_sexb(l1))
    }
}

} // verus!
