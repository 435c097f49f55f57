//! The conditional jumps.

use crate::interpreter::{Glulx, VmView};
use crate::opcodes;
use vstd::prelude::*;

verus! {

impl VmView {
    /// JZ: jumps by `l2` where `l1` is zero.
    pub open spec fn op_jz(self, l1: i32, l2: u32) -> VmView {
        self.jump_if(l1 == 0, l2)
    }

    /// JNZ: jumps by `l2` where `l1` is not zero.
    pub open spec fn op_jnz(self, l1: i32, l2: u32) -> VmView {
        self.jump_if(l1 != 0, l2)
    }

    /// JEQ: jumps by `l3` where `l1` equals `l2`.
    pub open spec fn op_jeq(self, l1: i32, l2: i32, l3: u32) -> VmView {
        self.jump_if(l1 == l2, l3)
    }

    /// JNE: jumps by `l3` where `l1` differs from `l2`.
    pub open spec fn op_jne(self, l1: i32, l2: i32, l3: u32) -> VmView {
        self.jump_if(l1 != l2, l3)
    }

    /// JLT: jumps by `l3` where `l1` is less than `l2`, both signed.
    pub open spec fn op_jlt(self, l1: i32, l2: i32, l3: u32) -> VmView {
        self.jump_if(l1 < l2, l3)
    }

    /// JGE: jumps by `l3` where `l1` is at least `l2`, both signed.
    pub open spec fn op_jge(self, l1: i32, l2: i32, l3: u32) -> VmView {
        self.jump_if(l1 >= l2, l3)
    }

    /// JGT: jumps by `l3` where `l1` is greater than `l2`, both signed.
    pub open spec fn op_jgt(self, l1: i32, l2: i32, l3: u32) -> VmView {
        self.jump_if(l1 > l2, l3)
    }

    /// JLE: jumps by `l3` where `l1` is at most `l2`, both signed.
    pub open spec fn op_jle(self, l1: i32, l2: i32, l3: u32) -> VmView {
        self.jump_if(l1 <= l2, l3)
    }

    /// JLTU: jumps by `l3` where `l1` is less than `l2`, both unsigned.
    pub open spec fn op_jltu(self, l1: u32, l2: u32, l3: u32) -> VmView {
        self.jump_if(l1 < l2, l3)
    }

    /// JGEU: jumps by `l3` where `l1` is at least `l2`, both unsigned.
    pub open spec fn op_jgeu(self, l1: u32, l2: u32, l3: u32) -> VmView {
        self.jump_if(l1 >= l2, l3)
    }

    /// JGTU: jumps by `l3` where `l1` is greater than `l2`, both unsigned.
    pub open spec fn op_jgtu(self, l1: u32, l2: u32, l3: u32) -> VmView {
        self.jump_if(l1 > l2, l3)
    }

    /// JLEU: jumps by `l3` where `l1` is at most `l2`, both unsigned.
    pub open spec fn op_jleu(self, l1: u32, l2: u32, l3: u32) -> VmView {
        self.jump_if(l1 <= l2, l3)
    }
}

impl Glulx {
    /// JZ: jumps by `l2` where `l1` is zero.
    pub fn op_jz(&mut self, l1: i32, l2: u32)
        requires
            old(self)@.wf(),
        ensures
            final(self)@ == old(self)@.op_jz(l1, l2),
            final(self)@.wf(),
    {
        self.jump_if(opcodes::op_jz(l1), l2)
    }

    /// JNZ: jumps by `l2` where `l1` is not zero.
    pub fn op_jnz(&mut self, l1: i32, l2: u32)
        requires
            old(self)@.wf(),
        ensures
            final(self)@ == old(self)@.op_jnz(l1, l2),
            final(self)@.wf(),
    {
        self.jump_if(opcodes::op_jnz(l1), l2)
    }

    /// JEQ: jumps by `l3` where `l1` equals `l2`.
    pub fn op_jeq(&mut self, l1: i32, l2: i32, l3: u32)
        requires
            old(self)@.wf(),
        ensures
            final(self)@ == old(self)@.op_jeq(l1, l2, l3),
            final(self)@.wf(),
    {
        self.jump_if(opcodes::op_jeq(l1, l2), l3)
    }

    /// JNE: jumps by `l3` where `l1` differs from `l2`.
    pub fn op_jne(&mut self, l1: i32, l2: i32, l3: u32)
        requires
            old(self)@.wf(),
        ensures
            final(self)@ == old(self)@.op_jne(l1, l2, l3),
            final(self)@.wf(),
    {
        self.jump_if(opcodes::op_jne(l1, l2), l3)
    }

    /// JLT: jumps by `l3` where `l1` is less than `l2`, both signed.
    pub fn op_jlt(&mut self, l1: i32, l2: i32, l3: u32)
        requires
            old(self)@.wf(),
        ensures
            final(self)@ == old(self)@.op_jlt(l1, l2, l3),
            final(self)@.wf(),
    {
        self.jump_if(opcodes::op_jlt(l1, l2), l3)
    }

    /// JGE: jumps by `l3` where `l1` is at least `l2`, both signed.
    pub fn op_jge(&mut self, l1: i32, l2: i32, l3: u32)
        requires
            old(self)@.wf(),
        ensures
            final(self)@ == old(self)@.op_jge(l1, l2, l3),
            final(self)@.wf(),
    {
        self.jump_if(opcodes::op_jge(l1, l2), l3)
    }

    /// JGT: jumps by `l3` where `l1` is greater than `l2`, both signed.
    pub fn op_jgt(&mut self, l1: i32, l2: i32, l3: u32)
        requires
            old(self)@.wf(),
        ensures
            final(self)@ == old(self)@.op_jgt(l1, l2, l3),
            final(self)@.wf(),
    {
        self.jump_if(opcodes::op_jgt(l1, l2), l3)
    }

    /// JLE: jumps by `l3` where `l1` is at most `l2`, both signed.
    pub fn op_jle(&mut self, l1: i32, l2: i32, l3: u32)
        requires
            old(self)@.wf(),
        ensures
            final(self)@ == old(self)@.op_jle(l1, l2, l3),
            final(self)@.wf(),
    {
        self.jump_if(opcodes::op_jle(l1, l2), l3)
    }

    /// JLTU: jumps by `l3` where `l1` is less than `l2`, both unsigned.
    pub fn op_jltu(&mut self, l1: u32, l2: u32, l3: u32)
        requires
            old(self)@.wf(),
        ensures
            final(self)@ == old(self)@.op_jltu(l1, l2, l3),
            final(self)@.wf(),
    {
        self.jump_if(opcodes::op_jltu(l1, l2), l3)
    }

    /// JGEU: jumps by `l3` where `l1` is at least `l2`, both unsigned.
    pub fn op_jgeu(&mut self, l1: u32, l2: u32, l3: u32)
        requires
            old(self)@.wf(),
        ensures
            final(self)@ == old(self)@.op_jgeu(l1, l2, l3),
            final(self)@.wf(),
    {
        self.jump_if(opcodes::op_jgeu(l1, l2), l3)
    }

    /// JGTU: jumps by `l3` where `l1` is greater than `l2`, both unsigned.
    pub fn op_jgtu(&mut self, l1: u32, l2: u32, l3: u32)
        requires
            old(self)@.wf(),
        ensures
            final(self)@ == old(self)@.op_jgtu(l1, l2, l3),
            final(self)@.wf(),
    {
        self.jump_if(opcodes::op_jgtu(l1, l2), l3)
    }

    /// JLEU: jumps by `l3` where `l1` is at most `l2`, both unsigned.
    pub fn op_jleu(&mut self, l1: u32, l2: u32, l3: u32)
        requires
            old(self)@.wf(),
        ensures
            final(self)@ == old(self)@.op_jleu(l1, l2, l3),
            final(self)@.wf(),
    {
        self.jump_if(opcodes::op_jleu(l1, l2), l3)
    }
}

} // verus!
